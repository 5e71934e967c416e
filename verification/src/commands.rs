use vstd::prelude::*;

verus! {

/// Wire value of the CNXN command.
pub const COMMAND_CNXN: u32 = 0x4e58_4e43;
/// Wire value of the AUTH command.
pub const COMMAND_AUTH: u32 = 0x4854_5541;
/// Wire value of the OPEN command.
pub const COMMAND_OPEN: u32 = 0x4e45_504f;
/// Wire value of the OKAY command.
pub const COMMAND_OKAY: u32 = 0x5941_4b4f;
/// Wire value of the CLSE command.
pub const COMMAND_CLSE: u32 = 0x4553_4c43;
/// Wire value of the WRTE command.
pub const COMMAND_WRTE: u32 = 0x4554_5257;
/// Wire value of the SYNC command.
pub const COMMAND_SYNC: u32 = 0x434e_5953;

/// AUTH arg0 for a token challenge sent by the device.
pub const AUTH_TOKEN: u32 = 1;
/// AUTH arg0 for a signature sent by the host.
pub const AUTH_SIGNATURE: u32 = 2;
/// AUTH arg0 for a public key sent by the host.
pub const AUTH_RSAPUBLICKEY: u32 = 3;

/// The ADB protocol version advertised in the host CNXN message.
pub const PROTOCOL_VERSION: u32 = 0x0100_0000;
/// The maximum payload size advertised in the host CNXN message.
pub const HOST_MAX_DATA: u32 = 1_048_576;

/// The commands of the ADB transport protocol.
#[derive(Clone, Copy, Debug, PartialEq, Eq, Structural)]
pub enum MessageCommand {
    /// Connect to the device.
    Cnxn,
    /// Authenticate with the device.
    Auth,
    /// Open a stream.
    Open,
    /// Acknowledge a stream message.
    Okay,
    /// Close a stream.
    Clse,
    /// Write stream payload.
    Wrte,
    /// Synchronize (internal to the device-side implementation).
    Sync,
}

/// The 32-bit wire value of a command.
pub open spec fn command_code(c: MessageCommand) -> u32 {
    match c {
        MessageCommand::Cnxn => COMMAND_CNXN,
        MessageCommand::Auth => COMMAND_AUTH,
        MessageCommand::Open => COMMAND_OPEN,
        MessageCommand::Okay => COMMAND_OKAY,
        MessageCommand::Clse => COMMAND_CLSE,
        MessageCommand::Wrte => COMMAND_WRTE,
        MessageCommand::Sync => COMMAND_SYNC,
    }
}

/// The command, if any, that a 32-bit wire value names.
pub open spec fn command_of_code(v: u32) -> Option<MessageCommand> {
    if v == COMMAND_CNXN {
        Some(MessageCommand::Cnxn)
    } else if v == COMMAND_AUTH {
        Some(MessageCommand::Auth)
    } else if v == COMMAND_OPEN {
        Some(MessageCommand::Open)
    } else if v == COMMAND_OKAY {
        Some(MessageCommand::Okay)
    } else if v == COMMAND_CLSE {
        Some(MessageCommand::Clse)
    } else if v == COMMAND_WRTE {
        Some(MessageCommand::Wrte)
    } else if v == COMMAND_SYNC {
        Some(MessageCommand::Sync)
    } else {
        None
    }
}

impl MessageCommand {
    /// The 32-bit value of this command on the wire.
    pub fn code(&self) -> (r: u32)
        ensures
            r == command_code(*self),
    {
        match self {
            MessageCommand::Cnxn => COMMAND_CNXN,
            MessageCommand::Auth => COMMAND_AUTH,
            MessageCommand::Open => COMMAND_OPEN,
            MessageCommand::Okay => COMMAND_OKAY,
            MessageCommand::Clse => COMMAND_CLSE,
            MessageCommand::Wrte => COMMAND_WRTE,
            MessageCommand::Sync => COMMAND_SYNC,
        }
    }

    /// Recognizes a 32-bit wire value as a command.
    pub fn from_code(v: u32) -> (r: Option<MessageCommand>)
        ensures
            r == command_of_code(v),
    {
        if v == COMMAND_CNXN {
            Some(MessageCommand::Cnxn)
        } else if v == COMMAND_AUTH {
            Some(MessageCommand::Auth)
        } else if v == COMMAND_OPEN {
            Some(MessageCommand::Open)
        } else if v == COMMAND_OKAY {
            Some(MessageCommand::Okay)
        } else if v == COMMAND_CLSE {
            Some(MessageCommand::Clse)
        } else if v == COMMAND_WRTE {
            Some(MessageCommand::Wrte)
        } else if v == COMMAND_SYNC {
            Some(MessageCommand::Sync)
        } else {
            None
        }
    }
}

/// Every command's code is recognized back as that command.
pub proof fn lemma_command_code_round_trip(c: MessageCommand)
    ensures
        command_of_code(command_code(c)) == Some(c),
{
}

} // verus!
