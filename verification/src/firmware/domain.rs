//! Commands and answers of the firmware update service.

use vstd::prelude::*;
use crate::message::domain::{FirmwareOk, HubMessage, ServerMessage, UpdateFirmware};

verus! {

/// What the core hands to the firmware service.
#[derive(Debug, Clone, PartialEq, Eq)]
pub enum FirmwareServiceCommand {
    Update(UpdateFirmware),
    HubResponse(FirmwareOk),
    CreateRuntime,
    DeleteRuntime,
}

/// What the firmware service hands to the core.
#[derive(Debug, Clone, PartialEq, Eq)]
pub enum FirmwareServiceResponse {
    ServerAck(ServerMessage),
    HubCommand(HubMessage),
}

} // verus!
