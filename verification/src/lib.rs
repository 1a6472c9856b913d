//! Client-side protocol logic for a hardware-wallet device: APDU command
//! framing, binary decoders for device identity and the installed-app
//! inventory, and the state machine of the relay session that carries
//! opaque sub-commands between a remote authority and the device.
use vstd::prelude::*;

pub mod apps;
pub mod codec;
pub mod command;
pub mod device_info;
mod errors;
pub mod hexfmt;
pub mod json;
pub mod reader;
pub mod relay;
pub mod status;
pub mod text;

pub use errors::Error;

verus! {

/// The status word a device reply carries when the command succeeded.
pub const STATUS_OK: u16 = 0x9000;

/// Whether a raw status word denotes success; 0x9000 is the sole
/// success sentinel of the protocol.
pub open spec fn spec_status_is_success(code: u16) -> bool {
    code == STATUS_OK
}

/// Whether a device status word denotes success.
pub fn status_is_success(code: u16) -> (r: bool)
    ensures
        r == spec_status_is_success(code),
{
    code == STATUS_OK
}

} // verus!
