use vstd::prelude::*;

use crate::commands::{command_code, MessageCommand};
use crate::errors::AdbError;

verus! {

/// Sum of the bytes of a payload, the quantity behind the checksum field of
/// the wire protocol (historically named CRC32, but a plain byte sum).
pub open spec fn checksum_of(s: Seq<u8>) -> nat
    decreases s.len(),
{
    if s.len() == 0 {
        0
    } else {
        (checksum_of(s.drop_last()) + s.last()) as nat
    }
}

/// The four little-endian bytes of a 32-bit value.
pub open spec fn u32_le(x: u32) -> Seq<u8> {
    seq![
        (x & 0xff) as u8,
        ((x >> 8) & 0xff) as u8,
        ((x >> 16) & 0xff) as u8,
        ((x >> 24) & 0xff) as u8,
    ]
}

/// The 32-bit value read from four little-endian bytes.
pub open spec fn u32_of_le(b0: u8, b1: u8, b2: u8, b3: u8) -> u32 {
    (b0 as u32) | ((b1 as u32) << 8) | ((b2 as u32) << 16) | ((b3 as u32) << 24)
}

/// The 24-byte transport message header, fields in wire order.
#[derive(Clone, Copy, Debug, PartialEq, Eq, Structural)]
pub struct MessageHeader {
    /// Command word.
    pub command: u32,
    /// First command-specific argument.
    pub arg0: u32,
    /// Second command-specific argument.
    pub arg1: u32,
    /// Payload byte count.
    pub data_length: u32,
    /// Sum of payload bytes modulo 2^32.
    pub data_crc32: u32,
    /// Bitwise NOT of the command word.
    pub magic: u32,
}

/// The 24 bytes of a header in wire order: six little-endian 32-bit fields.
pub open spec fn header_bytes(h: MessageHeader) -> Seq<u8> {
    u32_le(h.command) + u32_le(h.arg0) + u32_le(h.arg1) + u32_le(h.data_length) + u32_le(
        h.data_crc32,
    ) + u32_le(h.magic)
}

/// The header read from the first 24 bytes of a buffer.
pub open spec fn parsed_header(b: Seq<u8>) -> MessageHeader {
    MessageHeader {
        command: u32_of_le(b[0], b[1], b[2], b[3]),
        arg0: u32_of_le(b[4], b[5], b[6], b[7]),
        arg1: u32_of_le(b[8], b[9], b[10], b[11]),
        data_length: u32_of_le(b[12], b[13], b[14], b[15]),
        data_crc32: u32_of_le(b[16], b[17], b[18], b[19]),
        magic: u32_of_le(b[20], b[21], b[22], b[23]),
    }
}

/// Splitting a 32-bit value into its little-endian bytes and reassembling
/// them gives the value back.
pub proof fn lemma_u32_le_round_trip(x: u32)
    ensures
        u32_of_le(
            (x & 0xff) as u8,
            ((x >> 8) & 0xff) as u8,
            ((x >> 16) & 0xff) as u8,
            ((x >> 24) & 0xff) as u8,
        ) == x,
{
    assert(((x & 0xff) as u8 as u32) | (((x >> 8) & 0xff) as u8 as u32) << 8 | (((x >> 16)
        & 0xff) as u8 as u32) << 16 | (((x >> 24) & 0xff) as u8 as u32) << 24 == x)
        by (bit_vector);
}

/// Computes the checksum of a payload: the sum of its bytes modulo 2^32.
pub fn compute_checksum(payload: &[u8]) -> (r: u32)
    ensures
        r == checksum_of(payload@) % 0x1_0000_0000,
{
    let mut sum: u32 = 0;
    let mut i: usize = 0;
    while i < payload.len()
        invariant
            i <= payload@.len(),
            sum == checksum_of(payload@.take(i as int)) % 0x1_0000_0000,
        decreases payload@.len() - i,
    {
        proof {
            assert(payload@.take(i + 1).drop_last() =~= payload@.take(i as int));
        }
        sum = sum.wrapping_add(payload[i] as u32);
        i += 1;
    }
    proof {
        assert(payload@.take(payload@.len() as int) =~= payload@);
    }
    sum
}

/// Appends the four little-endian bytes of a 32-bit value.
pub(crate) fn push_u32_le(v: &mut Vec<u8>, x: u32)
    ensures
        final(v)@ == old(v)@ + u32_le(x),
{
    v.push((x & 0xff) as u8);
    v.push(((x >> 8) & 0xff) as u8);
    v.push(((x >> 16) & 0xff) as u8);
    v.push(((x >> 24) & 0xff) as u8);
    proof {
        assert(v@ =~= old(v)@ + u32_le(x));
    }
}

/// Reads a 32-bit little-endian value at offset `i`.
fn read_u32_le(bytes: &[u8], i: usize) -> (r: u32)
    requires
        i + 4 <= bytes@.len(),
    ensures
        r == u32_of_le(bytes@[i as int], bytes@[i + 1], bytes@[i + 2], bytes@[i + 3]),
{
    (bytes[i] as u32) | ((bytes[i + 1] as u32) << 8) | ((bytes[i + 2] as u32) << 16) | ((bytes[i
        + 3] as u32) << 24)
}

impl MessageHeader {
    /// A header is well formed when its magic word is the bitwise NOT of its
    /// command word.
    pub open spec fn wf(self) -> bool {
        self.magic == !self.command
    }

    /// Serializes the header to its 24 wire bytes.
    pub fn encode(&self) -> (r: Vec<u8>)
        ensures
            r@ == header_bytes(*self),
            r@.len() == 24,
    {
        let mut v: Vec<u8> = Vec::new();
        push_u32_le(&mut v, self.command);
        push_u32_le(&mut v, self.arg0);
        push_u32_le(&mut v, self.arg1);
        push_u32_le(&mut v, self.data_length);
        push_u32_le(&mut v, self.data_crc32);
        push_u32_le(&mut v, self.magic);
        proof {
            assert(v@ =~= header_bytes(*self));
        }
        v
    }

    /// Parses a header from the first 24 bytes of a buffer.
    ///
    /// Fails with `InvalidHeader` when fewer than 24 bytes are given or when
    /// the magic word is not the bitwise NOT of the command word. Unknown
    /// command words parse successfully; the consumer rejects them.
    pub fn decode(bytes: &[u8]) -> (r: Result<MessageHeader, AdbError>)
        ensures
            r is Ok <==> bytes@.len() >= 24 && parsed_header(bytes@).wf(),
            r matches Ok(h) ==> h == parsed_header(bytes@),
            r is Err ==> r == Err::<MessageHeader, AdbError>(AdbError::InvalidHeader),
    {
        if bytes.len() < 24 {
            return Err(AdbError::InvalidHeader);
        }
        let h = MessageHeader {
            command: read_u32_le(bytes, 0),
            arg0: read_u32_le(bytes, 4),
            arg1: read_u32_le(bytes, 8),
            data_length: read_u32_le(bytes, 12),
            data_crc32: read_u32_le(bytes, 16),
            magic: read_u32_le(bytes, 20),
        };
        if h.magic != !h.command {
            return Err(AdbError::InvalidHeader);
        }
        Ok(h)
    }
}

/// Encoding a well-formed header and parsing the bytes back yields the same
/// header, and the encoding is exactly 24 bytes.
pub proof fn lemma_header_round_trip(h: MessageHeader)
    ensures
        header_bytes(h).len() == 24,
        parsed_header(header_bytes(h)) == h,
{
    let b = header_bytes(h);
    lemma_u32_le_round_trip(h.command);
    lemma_u32_le_round_trip(h.arg0);
    lemma_u32_le_round_trip(h.arg1);
    lemma_u32_le_round_trip(h.data_length);
    lemma_u32_le_round_trip(h.data_crc32);
    lemma_u32_le_round_trip(h.magic);
    assert(parsed_header(b) == h);
}

/// A transport message: a header together with its payload.
#[derive(Clone, Debug)]
pub struct Message {
    /// The 24-byte header.
    pub header: MessageHeader,
    /// The payload; its length equals `header.data_length`.
    pub payload: Vec<u8>,
}

/// The full wire form of a message: header bytes then payload bytes.
pub open spec fn message_bytes(m: Message) -> Seq<u8> {
    header_bytes(m.header) + m.payload@
}

impl Message {
    /// A message is well formed when its header is and the payload length
    /// matches the header's length field.
    pub open spec fn wf(self) -> bool {
        &&& self.header.wf()
        &&& self.payload@.len() == self.header.data_length
    }

    /// The payload sum matches the checksum field of the header.
    pub open spec fn integrity_ok(self) -> bool {
        self.header.data_crc32 == checksum_of(self.payload@) % 0x1_0000_0000
    }

    /// Builds a message from a command, its arguments and a payload; the
    /// length and checksum fields are derived, and the magic word is the
    /// bitwise NOT of the command word.
    pub fn new(command: MessageCommand, arg0: u32, arg1: u32, payload: Vec<u8>) -> (r: Message)
        requires
            payload@.len() < 0x1_0000_0000,
        ensures
            r.header.command == command_code(command),
            r.header.arg0 == arg0,
            r.header.arg1 == arg1,
            r.header.data_length == payload@.len(),
            r.header.data_crc32 == checksum_of(payload@) % 0x1_0000_0000,
            r.header.magic == !command_code(command),
            r.payload == payload,
            r.wf(),
            r.integrity_ok(),
    {
        let code = command.code();
        let crc = compute_checksum(payload.as_slice());
        let header = MessageHeader {
            command: code,
            arg0,
            arg1,
            data_length: payload.len() as u32,
            data_crc32: crc,
            magic: !code,
        };
        Message { header, payload }
    }

    /// Recomputes the payload sum and compares it with the checksum field.
    pub fn check_integrity(&self) -> (r: bool)
        ensures
            r == self.integrity_ok(),
    {
        compute_checksum(self.payload.as_slice()) == self.header.data_crc32
    }

    /// Assembles a message received from the wire.
    ///
    /// A message with a payload is accepted exactly when the payload sum
    /// matches the checksum field; the integrity check is skipped for an
    /// empty payload.
    pub fn from_wire(header: MessageHeader, payload: Vec<u8>) -> (r: Result<Message, AdbError>)
        requires
            payload@.len() == header.data_length,
        ensures
            r is Ok <==> (header.data_length == 0 || (Message { header, payload }).integrity_ok()),
            r matches Ok(m) ==> m.header == header && m.payload == payload,
            r is Err ==> (r == Err::<Message, AdbError>(
                AdbError::InvalidIntegrity {
                    expected: (checksum_of(payload@) % 0x1_0000_0000) as u32,
                    actual: header.data_crc32,
                },
            )),
    {
        let m = Message { header, payload };
        if m.header.data_length != 0 {
            let computed = compute_checksum(m.payload.as_slice());
            if computed != m.header.data_crc32 {
                return Err(
                    AdbError::InvalidIntegrity { expected: computed, actual: m.header.data_crc32 },
                );
            }
        }
        Ok(m)
    }
}

/// A well-formed message round-trips through its wire form: the header parses
/// back from the first 24 bytes and the payload is the rest.
pub proof fn lemma_message_round_trip(m: Message)
    requires
        m.wf(),
    ensures
        message_bytes(m).len() == 24 + m.header.data_length,
        parsed_header(message_bytes(m)) == m.header,
        message_bytes(m).skip(24) == m.payload@,
{
    lemma_header_round_trip(m.header);
    let b = message_bytes(m);
    assert forall|i: int| 0 <= i < 24 implies b[i] == header_bytes(m.header)[i] by {}
    assert(parsed_header(b) == parsed_header(header_bytes(m.header)));
    assert(b.skip(24) =~= m.payload@);
}

} // verus!
