//! Host-side core of the Android Debug Bridge wire protocol over USB:
//! the 24-byte message framing with its byte-sum integrity field, the
//! CNXN/AUTH handshake, RSA token signing with the Android public-key
//! encoding, and bulk-endpoint discovery on ADB interfaces.

pub mod commands;
pub mod device;
pub mod errors;
pub mod keys;
pub mod message;
pub mod session;
pub mod transport;
pub mod usb_info;
