use vstd::prelude::*;

use crate::commands::{
    MessageCommand, AUTH_RSAPUBLICKEY, AUTH_SIGNATURE, HOST_MAX_DATA, PROTOCOL_VERSION,
};
use crate::errors::AdbError;
use crate::keys::RsaKey;
use crate::message::Message;
use crate::session::{HandshakeAction, HandshakeEvent, SessionState};
use crate::transport::USBTransport;

verus! {

/// Deadline for the device's answer after public-key enrollment: the user
/// must accept the fingerprint prompt within ten seconds.
pub const ENROLL_TIMEOUT_MS: u64 = 10_000;

/// Copies a byte slice into a fresh vector.
fn slice_to_vec(s: &[u8]) -> (r: Vec<u8>)
    ensures
        r@ == s@,
{
    let mut v: Vec<u8> = Vec::new();
    let mut i: usize = 0;
    while i < s.len()
        invariant
            i <= s@.len(),
            v@ =~= s@.take(i as int),
        decreases s@.len() - i,
    {
        v.push(s[i]);
        proof {
            assert(v@ =~= s@.take(i + 1));
        }
        i += 1;
    }
    proof {
        assert(s@.take(s@.len() as int) =~= s@);
    }
    v
}

/// Accepts the payload of a token challenge: the device's challenge is a
/// 20-byte token, and anything else is a protocol error.
fn check_token(payload: &Vec<u8>) -> (r: Result<(), AdbError>)
    ensures
        r is Ok <==> payload@.len() == 20,
        r is Err ==> r == Err::<(), AdbError>(AdbError::ProtocolError),
{
    if payload.len() == 20 {
        Ok(())
    } else {
        Err(AdbError::ProtocolError)
    }
}

/// An ADB device reached over USB: the private key used to answer token
/// challenges, the transport, and the state of the handshake.
pub struct ADBUSBDevice {
    private_key: RsaKey,
    transport: USBTransport,
    session: Option<SessionState>,
}

impl ADBUSBDevice {
    /// The held private key is well formed.
    pub closed spec fn wf(self) -> bool {
        self.private_key.wf()
    }

    /// The state the handshake has reached, if one was started.
    pub closed spec fn session_state(self) -> Option<SessionState> {
        self.session
    }

    /// The handshake has completed and the session is connected.
    pub open spec fn is_connected(self) -> bool {
        self.session_state() matches Some(s) && s is Connected
    }

    /// Builds a device over a transport with the given private key; no
    /// handshake is started yet.
    pub fn new_from_parts(private_key: RsaKey, transport: USBTransport) -> (r: ADBUSBDevice)
        requires
            private_key.wf(),
        ensures
            r.wf(),
            r.session_state() is None,
    {
        ADBUSBDevice { private_key, transport, session: None }
    }

    /// The negotiated maximum payload size, once connected.
    pub fn max_data(&self) -> (r: Option<u32>)
        ensures
            r matches Some(m) ==> self.session_state() == Some(
                SessionState::Connected { max_data: m, authenticated: true },
            ) || self.session_state() == Some(
                SessionState::Connected { max_data: m, authenticated: false },
            ),
            r is None ==> !self.is_connected(),
    {
        match self.session {
            Some(SessionState::Connected { max_data, authenticated: _ }) => Some(max_data),
            _ => None,
        }
    }

    /// A mutable borrow of the underlying transport.
    pub fn get_transport_mut(&mut self) -> (r: &mut USBTransport)
        ensures
            final(self).wf() == old(self).wf(),
            final(self).session_state() == old(self).session_state(),
    {
        &mut self.transport
    }

    /// Runs the CNXN/AUTH handshake.
    ///
    /// Connects the transport, sends the host CNXN banner, and then obeys
    /// the handshake relation `handshake_next` step by step: a device CNXN
    /// connects; an AUTH token challenge is answered with a signature; a
    /// second challenge is answered with the public-key blob, whose answer
    /// is awaited under the enrollment deadline. On success the session is
    /// connected and holds the device's `max_data`.
    pub fn connect(&mut self) -> (r: Result<(), AdbError>)
        requires
            old(self).wf(),
        ensures
            final(self).wf(),
            r is Ok ==> final(self).is_connected(),
            r matches Err(e) ==> (e is NoDescriptor || e is PermissionDenied || e is Timeout
                || e is IoError || e is InvalidHeader || e is InvalidIntegrity
                || e is ProtocolError || e is AuthTimeout),
    {
        self.transport.connect()?;
        let banner = slice_to_vec("host::adb_usb_core\u{0}".as_bytes());
        if banner.len() > (u32::MAX as usize) {
            return Err(AdbError::ProtocolError);
        }
        let msg = Message::new(MessageCommand::Cnxn, PROTOCOL_VERSION, HOST_MAX_DATA, banner);
        self.transport.write_message(&msg)?;
        self.session = Some(SessionState::SentCnxn);

        // First answer: CNXN, or an AUTH token challenge.
        let first = self.transport.read_message()?;
        let state = SessionState::SentCnxn;
        let (state, action) = state.advance(
            &HandshakeEvent::Msg {
                command: first.header.command,
                arg0: first.header.arg0,
                arg1: first.header.arg1,
            },
        );
        self.session = Some(state);
        match action {
            HandshakeAction::Complete => {
                return Ok(());
            },
            HandshakeAction::SendSignature => {},
            _ => {
                return Err(self.failure_error());
            },
        }

        // Sign the token and send the signature.
        if let Err(e) = check_token(&first.payload) {
            self.session = Some(SessionState::Failed { error: e });
            return Err(e);
        }
        let signature = self.private_key.sign(first.payload.as_slice());
        if signature.len() > (u32::MAX as usize) {
            return Err(AdbError::ProtocolError);
        }
        let msg = Message::new(MessageCommand::Auth, AUTH_SIGNATURE, 0, signature);
        self.transport.write_message(&msg)?;

        // Second answer: CNXN, or a fresh token challenge.
        let second = self.transport.read_message()?;
        let (state, action) = state.advance(
            &HandshakeEvent::Msg {
                command: second.header.command,
                arg0: second.header.arg0,
                arg1: second.header.arg1,
            },
        );
        self.session = Some(state);
        match action {
            HandshakeAction::Complete => {
                return Ok(());
            },
            HandshakeAction::SendPublicKey => {},
            _ => {
                return Err(self.failure_error());
            },
        }

        // Enroll the public key and await the user's acceptance.
        let blob = self.private_key.android_public_key_blob();
        let mut payload = slice_to_vec(blob.as_str().as_bytes());
        payload.push(0);
        if payload.len() > (u32::MAX as usize) {
            return Err(AdbError::ProtocolError);
        }
        let msg = Message::new(MessageCommand::Auth, AUTH_RSAPUBLICKEY, 0, payload);
        self.transport.write_message(&msg)?;
        let event = match self.transport.read_message_with_timeout(ENROLL_TIMEOUT_MS) {
            Ok(third) => HandshakeEvent::Msg {
                command: third.header.command,
                arg0: third.header.arg0,
                arg1: third.header.arg1,
            },
            Err(AdbError::Timeout) => HandshakeEvent::TimedOut,
            Err(e) => {
                return Err(e);
            },
        };
        let (state, action) = state.advance(&event);
        self.session = Some(state);
        match action {
            HandshakeAction::Complete => Ok(()),
            _ => Err(self.failure_error()),
        }
    }

    /// The error recorded in a failed handshake state; `ProtocolError` when
    /// the handshake is not in a failed state.
    fn failure_error(&self) -> (r: AdbError)
        ensures
            self.session_state() matches Some(SessionState::Failed { error }) ==> r == error,
    {
        match self.session {
            Some(SessionState::Failed { error }) => error,
            _ => AdbError::ProtocolError,
        }
    }

    /// Sends a best-effort CLSE, releases the transport, and forgets the
    /// session.
    pub fn disconnect(&mut self) -> (r: Result<(), AdbError>)
        ensures
            final(self).wf() == old(self).wf(),
            !final(self).is_connected(),
    {
        let r = self.transport.disconnect();
        self.session = None;
        r
    }
}

} // verus!
