//! What the event loop hands to the actor that runs beside it, and what that
//! actor does with the commands it is sent.

use vstd::prelude::*;
use std::time::Duration;
use twilight_model::gateway::event::EventType;
use crate::command::{CloseStyle, EncodeError, ShardCommand};
use crate::trusted::gateway_payload_json_of;

verus! {

/// The round trip time of an acknowledged heartbeat.
#[derive(Clone, Copy, Debug, PartialEq, Eq)]
pub struct HeartbeatRtt(pub Duration);

/// A dispatch event that the application asked to observe.
pub struct Dispatch {
    /// The type of the event.
    pub event_type: EventType,
    /// The data of the event.
    pub data: String,
}

/// What the sidecar does with a command addressed to its shard.
pub enum SidecarAction {
    /// Send this JSON payload to the gateway.
    Send(String),
    /// Close the shard's connection in this style.
    Close(CloseStyle),
    /// Nothing: the command could not be encoded, for this reason.
    Skip(EncodeError),
}

/// A gateway command is sent as its JSON payload, or skipped when it cannot be
/// encoded; a reconnect closes the connection in the requested style.
pub fn handle_command(command: ShardCommand) -> (action: SidecarAction)
    ensures
        match command {
            ShardCommand::Gateway(c) => match action {
                SidecarAction::Send(json) => gateway_payload_json_of(c.opcode(), c) == Some(json@),
                SidecarAction::Skip(_) => gateway_payload_json_of(c.opcode(), c) is None,
                SidecarAction::Close(_) => false,
            },
            ShardCommand::Reconnect { close_style } => action == SidecarAction::Close(close_style),
        },
{
    match command {
        ShardCommand::Gateway(command) => match command.encode() {
            Ok(json) => SidecarAction::Send(json),
            Err(error) => SidecarAction::Skip(error),
        },
        ShardCommand::Reconnect { close_style } => SidecarAction::Close(close_style),
    }
}

} // verus!
