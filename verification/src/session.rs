use vstd::prelude::*;

use crate::commands::{COMMAND_AUTH, COMMAND_CNXN, AUTH_TOKEN};
use crate::errors::AdbError;

verus! {

/// The host side of the CNXN/AUTH handshake, between the host CNXN being
/// sent and the session being connected or failed.
#[derive(Clone, Copy, Debug, PartialEq, Eq, Structural)]
pub enum SessionState {
    /// The host CNXN banner was sent; waiting for the device's answer.
    SentCnxn,
    /// The signature over the device token was sent.
    SentSignature,
    /// The public-key blob was sent; waiting for the user to accept.
    SentPublicKey,
    /// The handshake succeeded.
    Connected {
        /// Maximum payload size granted by the device's CNXN `arg1`.
        max_data: u32,
        /// Whether an AUTH exchange took place.
        authenticated: bool,
    },
    /// The handshake failed.
    Failed {
        /// Why the handshake failed.
        error: AdbError,
    },
}

/// What the handshake observes: a device message (its header words), or the
/// expiry of the read deadline.
#[derive(Clone, Copy, Debug, PartialEq, Eq, Structural)]
pub enum HandshakeEvent {
    /// A message arrived; the fields are the header's command and arguments.
    Msg {
        /// Command word of the received message.
        command: u32,
        /// First argument of the received message.
        arg0: u32,
        /// Second argument of the received message.
        arg1: u32,
    },
    /// No message arrived within the read deadline.
    TimedOut,
}

/// What the host must do after a handshake step.
#[derive(Clone, Copy, Debug, PartialEq, Eq, Structural)]
pub enum HandshakeAction {
    /// Sign the token just received and send `AUTH(SIGNATURE, 0, signature)`.
    SendSignature,
    /// Send `AUTH(RSAPUBLICKEY, 0, public-key blob)`.
    SendPublicKey,
    /// Nothing further: the session is connected.
    Complete,
    /// Nothing further: the handshake failed.
    Abort,
}

/// The handshake transition relation.
///
/// From `SentCnxn`: a device CNXN connects without authentication, recording
/// `arg1` as `max_data`; an `AUTH` with `arg0 == TOKEN` calls for a
/// signature; any other message, or an `AUTH` of another type, is a protocol
/// error. From `SentSignature`: a CNXN connects authenticated; a fresh token
/// calls for public-key enrollment. From `SentPublicKey`: a CNXN connects
/// authenticated; an expired deadline means the user did not accept the key.
pub open spec fn handshake_next(state: SessionState, event: HandshakeEvent) -> (SessionState,
    HandshakeAction) {
    match state {
        SessionState::SentCnxn => match event {
            HandshakeEvent::Msg { command, arg0, arg1 } => {
                if command == COMMAND_CNXN {
                    (
                        SessionState::Connected { max_data: arg1, authenticated: false },
                        HandshakeAction::Complete,
                    )
                } else if command == COMMAND_AUTH && arg0 == AUTH_TOKEN {
                    (SessionState::SentSignature, HandshakeAction::SendSignature)
                } else {
                    (
                        SessionState::Failed { error: AdbError::ProtocolError },
                        HandshakeAction::Abort,
                    )
                }
            },
            HandshakeEvent::TimedOut => (
                SessionState::Failed { error: AdbError::Timeout },
                HandshakeAction::Abort,
            ),
        },
        SessionState::SentSignature => match event {
            HandshakeEvent::Msg { command, arg0, arg1 } => {
                if command == COMMAND_CNXN {
                    (
                        SessionState::Connected { max_data: arg1, authenticated: true },
                        HandshakeAction::Complete,
                    )
                } else if command == COMMAND_AUTH && arg0 == AUTH_TOKEN {
                    (SessionState::SentPublicKey, HandshakeAction::SendPublicKey)
                } else {
                    (
                        SessionState::Failed { error: AdbError::ProtocolError },
                        HandshakeAction::Abort,
                    )
                }
            },
            HandshakeEvent::TimedOut => (
                SessionState::Failed { error: AdbError::Timeout },
                HandshakeAction::Abort,
            ),
        },
        SessionState::SentPublicKey => match event {
            HandshakeEvent::Msg { command, arg0, arg1 } => {
                if command == COMMAND_CNXN {
                    (
                        SessionState::Connected { max_data: arg1, authenticated: true },
                        HandshakeAction::Complete,
                    )
                } else {
                    (
                        SessionState::Failed { error: AdbError::ProtocolError },
                        HandshakeAction::Abort,
                    )
                }
            },
            HandshakeEvent::TimedOut => (
                SessionState::Failed { error: AdbError::AuthTimeout },
                HandshakeAction::Abort,
            ),
        },
        SessionState::Connected { .. } => (state, HandshakeAction::Complete),
        SessionState::Failed { .. } => (state, HandshakeAction::Abort),
    }
}

impl SessionState {
    /// Advances the handshake by one observed event.
    pub fn advance(&self, event: &HandshakeEvent) -> (r: (SessionState, HandshakeAction))
        ensures
            r == handshake_next(*self, *event),
    {
        match *self {
            SessionState::SentCnxn => match *event {
                HandshakeEvent::Msg { command, arg0, arg1 } => {
                    if command == COMMAND_CNXN {
                        (
                            SessionState::Connected { max_data: arg1, authenticated: false },
                            HandshakeAction::Complete,
                        )
                    } else if command == COMMAND_AUTH && arg0 == AUTH_TOKEN {
                        (SessionState::SentSignature, HandshakeAction::SendSignature)
                    } else {
                        (
                            SessionState::Failed { error: AdbError::ProtocolError },
                            HandshakeAction::Abort,
                        )
                    }
                },
                HandshakeEvent::TimedOut => (
                    SessionState::Failed { error: AdbError::Timeout },
                    HandshakeAction::Abort,
                ),
            },
            SessionState::SentSignature => match *event {
                HandshakeEvent::Msg { command, arg0, arg1 } => {
                    if command == COMMAND_CNXN {
                        (
                            SessionState::Connected { max_data: arg1, authenticated: true },
                            HandshakeAction::Complete,
                        )
                    } else if command == COMMAND_AUTH && arg0 == AUTH_TOKEN {
                        (SessionState::SentPublicKey, HandshakeAction::SendPublicKey)
                    } else {
                        (
                            SessionState::Failed { error: AdbError::ProtocolError },
                            HandshakeAction::Abort,
                        )
                    }
                },
                HandshakeEvent::TimedOut => (
                    SessionState::Failed { error: AdbError::Timeout },
                    HandshakeAction::Abort,
                ),
            },
            SessionState::SentPublicKey => match *event {
                HandshakeEvent::Msg { command, arg0: _, arg1 } => {
                    if command == COMMAND_CNXN {
                        (
                            SessionState::Connected { max_data: arg1, authenticated: true },
                            HandshakeAction::Complete,
                        )
                    } else {
                        (
                            SessionState::Failed { error: AdbError::ProtocolError },
                            HandshakeAction::Abort,
                        )
                    }
                },
                HandshakeEvent::TimedOut => (
                    SessionState::Failed { error: AdbError::AuthTimeout },
                    HandshakeAction::Abort,
                ),
            },
            SessionState::Connected { .. } => (*self, HandshakeAction::Complete),
            SessionState::Failed { .. } => (*self, HandshakeAction::Abort),
        }
    }
}

/// A connected state is only ever entered on a CNXN message, and its
/// `max_data` is always that message's `arg1`.
pub proof fn lemma_connected_only_by_cnxn(state: SessionState, event: HandshakeEvent)
    requires
        !(state is Connected),
        handshake_next(state, event).0 is Connected,
    ensures
        event matches HandshakeEvent::Msg { command, arg0, arg1 } && command == COMMAND_CNXN
            && handshake_next(state, event).0 == (SessionState::Connected {
            max_data: arg1,
            authenticated: !(state is SentCnxn),
        }),
{
}

} // verus!
