//! Commands that an application sends to a shard.

use vstd::prelude::*;
use twilight_model::gateway::CloseFrame;
use twilight_model::gateway::payload::outgoing::request_guild_members::RequestGuildMembersInfo;
use twilight_model::gateway::payload::outgoing::update_presence::UpdatePresencePayload;
use twilight_model::gateway::payload::outgoing::update_voice_state::UpdateVoiceStateInfo;
use crate::trusted::{
    close_frame_new, gateway_payload_json, gateway_payload_json_of, normal_close_frame,
    resume_close_frame,
};

verus! {

/// Gateway opcode of a dispatch event (`OpCode::Dispatch`).
pub const OP_DISPATCH: u8 = 0;

/// Gateway opcode of a presence update (`OpCode::PresenceUpdate`).
pub const OP_PRESENCE_UPDATE: u8 = 3;

/// Gateway opcode of a voice state update (`OpCode::VoiceStateUpdate`).
pub const OP_VOICE_STATE_UPDATE: u8 = 4;

/// Gateway opcode of a guild members request (`OpCode::RequestGuildMembers`).
pub const OP_REQUEST_GUILD_MEMBERS: u8 = 8;

/// Gateway opcode of a session invalidation (`OpCode::InvalidSession`).
pub const OP_INVALID_SESSION: u8 = 9;

/// Gateway opcode of a heartbeat acknowledgement (`OpCode::HeartbeatAck`).
pub const OP_HEARTBEAT_ACK: u8 = 11;

/// How a shard closes its connection.
#[derive(Debug, Clone, Copy, PartialEq, Eq, PartialOrd, Ord, Hash, Structural)]
pub enum CloseStyle {
    /// Normal close code indicating the shard will not be reconnecting soon or
    /// the Shard shouldn't be resumed.
    Normal,
    /// Close code indicating the shard will be reconnecting soon.
    Resume,
}

/// The close frame that a style of close sends: `CloseFrame::NORMAL` for a
/// normal close, `CloseFrame::RESUME` for a resumable one.
pub fn close_frame(style: CloseStyle) -> (frame: CloseFrame<'static>)
    ensures
        style is Normal ==> frame == close_frame_new(1000, "closing connection"@),
        style is Resume ==> frame == close_frame_new(4000, "resuming connection"@),
{
    match style {
        CloseStyle::Normal => normal_close_frame(),
        CloseStyle::Resume => resume_close_frame(),
    }
}

/// The close frame of a style of close, as `close_frame` gives it.
pub open spec fn style_frame(style: CloseStyle) -> CloseFrame<'static> {
    match style {
        CloseStyle::Normal => close_frame_new(1000, "closing connection"@),
        CloseStyle::Resume => close_frame_new(4000, "resuming connection"@),
    }
}

impl From<CloseStyle> for CloseFrame<'static> {
    fn from(style: CloseStyle) -> (frame: Self) {
        close_frame(style)
    }
}

impl vstd::std_specs::convert::FromSpecImpl<CloseStyle> for CloseFrame<'static> {
    open spec fn obeys_from_spec() -> bool {
        true
    }

    open spec fn from_spec(style: CloseStyle) -> Self {
        style_frame(style)
    }
}

/// A command that is sent to the gateway as it is.
#[derive(Clone, Debug, Eq, PartialEq, Hash)]
pub enum GatewayCommand {
    /// Request members of a Guild.
    RequestGuildMembers(RequestGuildMembersInfo),
    /// Update the voice state of the shard in a Guild.
    UpdateVoiceState(UpdateVoiceStateInfo),
    /// Update the presence of the shard.
    UpdatePresence(UpdatePresencePayload),
}

/// A command could not be turned into JSON.
#[derive(Debug)]
pub struct EncodeError {
    /// What the serializer reported.
    pub source: serde_json::Error,
}

impl GatewayCommand {
    /// The gateway opcode under which a command is sent.
    pub open spec fn opcode(self) -> u8 {
        match self {
            GatewayCommand::RequestGuildMembers(_) => OP_REQUEST_GUILD_MEMBERS,
            GatewayCommand::UpdateVoiceState(_) => OP_VOICE_STATE_UPDATE,
            GatewayCommand::UpdatePresence(_) => OP_PRESENCE_UPDATE,
        }
    }

    /// The gateway payload of the command, `{"d": .., "op": ..}`, as JSON,
    /// with the opcode that `opcode` gives.
    pub fn encode(self) -> (json: Result<String, EncodeError>)
        ensures
            match json {
                Ok(s) => gateway_payload_json_of(self.opcode(), self) == Some(s@),
                Err(_) => gateway_payload_json_of(self.opcode(), self) is None,
            },
    {
        let code: u8 = match &self {
            GatewayCommand::RequestGuildMembers(_) => OP_REQUEST_GUILD_MEMBERS,
            GatewayCommand::UpdateVoiceState(_) => OP_VOICE_STATE_UPDATE,
            GatewayCommand::UpdatePresence(_) => OP_PRESENCE_UPDATE,
        };
        assert(code == self.opcode());
        match gateway_payload_json(code, self) {
            Ok(json) => Ok(json),
            Err(source) => Err(EncodeError { source }),
        }
    }
}

/// A command addressed to one shard.
#[derive(Clone, Debug, Eq, PartialEq, Hash)]
pub enum ShardCommand {
    /// Send a command to the gateway.
    Gateway(GatewayCommand),
    /// Reconnect the shard.
    Reconnect { close_style: CloseStyle },
}

impl ShardCommand {
    /// Create a new gateway command.
    pub fn update_voice_state(d: UpdateVoiceStateInfo) -> (command: Self)
        ensures
            command == ShardCommand::Gateway(GatewayCommand::UpdateVoiceState(d)),
    {
        ShardCommand::Gateway(GatewayCommand::UpdateVoiceState(d))
    }

    /// Create a new reconnect command.
    pub fn reconnect(close_style: CloseStyle) -> (command: Self)
        ensures
            command == (ShardCommand::Reconnect { close_style }),
    {
        ShardCommand::Reconnect { close_style }
    }
}

} // verus!
