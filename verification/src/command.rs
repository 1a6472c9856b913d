//! The client's own commands and the words that name them.
use vstd::prelude::*;

use crate::text::str_eq;

verus! {

/// Everything this client can be asked to do.
#[derive(Debug, Clone, Copy, PartialEq, Eq, Structural)]
pub enum Command {
    GetInfo,
    GenuineCheck,
    InstallMainApp,
    UpdateMainApp,
    OpenMainApp,
    InstallTestApp,
    UpdateTestApp,
    OpenTestApp,
    UpdateeFirmware,
}

/// The command a name stands for; the testnet switch picks the testnet
/// twin where one exists.
pub open spec fn spec_command_of(cmd: Seq<char>, is_testnet: bool) -> Option<Command> {
    if cmd == "getinfo"@ {
        Some(Command::GetInfo)
    } else if cmd == "genuinecheck"@ {
        Some(Command::GenuineCheck)
    } else if cmd == "installapp"@ {
        Some(
            if is_testnet {
                Command::InstallTestApp
            } else {
                Command::InstallMainApp
            },
        )
    } else if cmd == "updateapp"@ {
        Some(
            if is_testnet {
                Command::UpdateTestApp
            } else {
                Command::UpdateMainApp
            },
        )
    } else if cmd == "openapp"@ {
        Some(
            if is_testnet {
                Command::OpenTestApp
            } else {
                Command::OpenMainApp
            },
        )
    } else if cmd == "updatefirm"@ {
        Some(Command::UpdateeFirmware)
    } else {
        None
    }
}

impl Command {
    /// The command a name stands for, or nothing for an unknown name.
    pub fn from_name(cmd: &str, is_testnet: bool) -> (r: Option<Command>)
        ensures
            r == spec_command_of(cmd@, is_testnet),
    {
        if str_eq(cmd, "getinfo") {
            Some(Command::GetInfo)
        } else if str_eq(cmd, "genuinecheck") {
            Some(Command::GenuineCheck)
        } else if str_eq(cmd, "installapp") {
            Some(
                if is_testnet {
                    Command::InstallTestApp
                } else {
                    Command::InstallMainApp
                },
            )
        } else if str_eq(cmd, "updateapp") {
            Some(
                if is_testnet {
                    Command::UpdateTestApp
                } else {
                    Command::UpdateMainApp
                },
            )
        } else if str_eq(cmd, "openapp") {
            Some(
                if is_testnet {
                    Command::OpenTestApp
                } else {
                    Command::OpenMainApp
                },
            )
        } else if str_eq(cmd, "updatefirm") {
            Some(Command::UpdateeFirmware)
        } else {
            None
        }
    }
}

} // verus!
