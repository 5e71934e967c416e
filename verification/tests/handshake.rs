use adb_usb_core::commands::{AUTH_TOKEN, COMMAND_AUTH, COMMAND_CNXN, COMMAND_OKAY};
use adb_usb_core::errors::AdbError;
use adb_usb_core::session::{HandshakeAction, HandshakeEvent, SessionState};

fn msg(command: u32, arg0: u32, arg1: u32) -> HandshakeEvent {
    HandshakeEvent::Msg { command, arg0, arg1 }
}

#[test]
fn no_auth_device_connects() {
    // The device answers the host CNXN with its own CNXN at once.
    let state = SessionState::SentCnxn;
    let (state, action) = state.advance(&msg(COMMAND_CNXN, 0x0100_0000, 0x40000));
    assert_eq!(action, HandshakeAction::Complete);
    assert_eq!(state, SessionState::Connected { max_data: 0x40000, authenticated: false });
}

#[test]
fn signature_accepted_path() {
    // The device challenges with a token; the signature is accepted.
    let state = SessionState::SentCnxn;
    let (state, action) = state.advance(&msg(COMMAND_AUTH, AUTH_TOKEN, 0));
    assert_eq!(action, HandshakeAction::SendSignature);
    assert_eq!(state, SessionState::SentSignature);
    let (state, action) = state.advance(&msg(COMMAND_CNXN, 0x0100_0000, 0x100000));
    assert_eq!(action, HandshakeAction::Complete);
    assert_eq!(state, SessionState::Connected { max_data: 0x100000, authenticated: true });
}

#[test]
fn public_key_enrollment() {
    // The device challenges twice; after the blob is sent it accepts.
    let state = SessionState::SentCnxn;
    let (state, _) = state.advance(&msg(COMMAND_AUTH, AUTH_TOKEN, 0));
    let (state, action) = state.advance(&msg(COMMAND_AUTH, AUTH_TOKEN, 0));
    assert_eq!(action, HandshakeAction::SendPublicKey);
    assert_eq!(state, SessionState::SentPublicKey);
    let (state, action) = state.advance(&msg(COMMAND_CNXN, 0x0100_0000, 0x40000));
    assert_eq!(action, HandshakeAction::Complete);
    assert_eq!(state, SessionState::Connected { max_data: 0x40000, authenticated: true });
}

#[test]
fn user_rejects_prompt() {
    // Nothing arrives within the enrollment deadline.
    let state = SessionState::SentPublicKey;
    let (state, action) = state.advance(&HandshakeEvent::TimedOut);
    assert_eq!(action, HandshakeAction::Abort);
    assert_eq!(state, SessionState::Failed { error: AdbError::AuthTimeout });
}

#[test]
fn auth_of_wrong_type_is_protocol_error() {
    let state = SessionState::SentCnxn;
    let (state, action) = state.advance(&msg(COMMAND_AUTH, 2, 0));
    assert_eq!(action, HandshakeAction::Abort);
    assert_eq!(state, SessionState::Failed { error: AdbError::ProtocolError });
}

#[test]
fn unexpected_command_is_protocol_error() {
    let state = SessionState::SentCnxn;
    let (state, action) = state.advance(&msg(COMMAND_OKAY, 0, 0));
    assert_eq!(action, HandshakeAction::Abort);
    assert_eq!(state, SessionState::Failed { error: AdbError::ProtocolError });
}

#[test]
fn timeout_before_enrollment_is_plain_timeout() {
    let state = SessionState::SentCnxn;
    let (state, action) = state.advance(&HandshakeEvent::TimedOut);
    assert_eq!(action, HandshakeAction::Abort);
    assert_eq!(state, SessionState::Failed { error: AdbError::Timeout });

    let state = SessionState::SentSignature;
    let (state, _) = state.advance(&HandshakeEvent::TimedOut);
    assert_eq!(state, SessionState::Failed { error: AdbError::Timeout });
}

#[test]
fn connected_state_is_absorbing() {
    let state = SessionState::Connected { max_data: 7, authenticated: true };
    let (next, action) = state.advance(&msg(COMMAND_OKAY, 0, 0));
    assert_eq!(next, state);
    assert_eq!(action, HandshakeAction::Complete);
}
