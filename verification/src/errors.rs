use vstd::prelude::*;

verus! {

/// Errors surfaced by the ADB USB core.
#[derive(Clone, Copy, Debug, PartialEq, Eq, Structural)]
pub enum AdbError {
    /// No matching USB device, or no ADB interface present.
    NotFound,
    /// The OS denied the interface claim.
    PermissionDenied,
    /// The device exposes no qualifying bulk endpoint pair.
    NoDescriptor,
    /// A bulk transfer exceeded its deadline.
    Timeout,
    /// Header magic mismatch or truncated header read.
    InvalidHeader,
    /// Payload byte sum does not match the header checksum field.
    InvalidIntegrity {
        /// Checksum recomputed over the payload that was received.
        expected: u32,
        /// Checksum carried in the header.
        actual: u32,
    },
    /// Unexpected command or argument during the handshake.
    ProtocolError,
    /// No response within the enrollment deadline: the prompt was not accepted.
    AuthTimeout,
    /// The private key material could not be parsed or is not a 2048-bit key.
    InvalidKey,
    /// More than one candidate device was found during autodetect.
    Ambiguous {
        /// Vendor id of the first candidate.
        first_vendor: u16,
        /// Product id of the first candidate.
        first_product: u16,
        /// Vendor id of the second candidate.
        second_vendor: u16,
        /// Product id of the second candidate.
        second_product: u16,
    },
    /// An error reported by the underlying USB stack.
    IoError,
}

} // verus!
