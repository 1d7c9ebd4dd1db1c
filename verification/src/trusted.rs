//! The outside types that the library carries, and the calls it makes into
//! outside crates. Everything here is believed, not proved.

use vstd::prelude::*;
use twilight_model::gateway::{CloseFrame, OpCode, ShardId};
use twilight_gateway::Session;
use twilight_model::gateway::payload::outgoing::{RequestGuildMembers, UpdatePresence, UpdateVoiceState};
use twilight_model::gateway::payload::outgoing::request_guild_members::RequestGuildMembersInfo;
use twilight_model::gateway::payload::outgoing::update_presence::UpdatePresencePayload;
use twilight_model::gateway::payload::outgoing::update_voice_state::UpdateVoiceStateInfo;
use crate::command::GatewayCommand;
use crate::event_loop::{DispatchKind, DispatchKindView, GatewayHeader, KnownEventType};
use std::borrow::Cow;
use serde::de::DeserializeSeed;
use twilight_gateway::EventTypeFlags;
use twilight_gateway::error::ReceiveMessageError;
use twilight_model::gateway::event::{DispatchEvent, EventType, GatewayEvent, GatewayEventDeserializer};

verus! {

#[verifier::external_type_specification]
#[verifier::external_body]
pub struct ExShardId(ShardId);

#[verifier::external_type_specification]
#[verifier::external_body]
pub struct ExSession(Session);

#[verifier::external_type_specification]
#[verifier::external_body]
pub struct ExCloseFrame<'a>(CloseFrame<'a>);

/// `Session::clone` (derived): the copy equals the value cloned.
pub assume_specification[ <Session as Clone>::clone ](session: &Session) -> (copy: Session)
    ensures
        copy == *session,
;

/// What `CloseFrame::new` builds from a close code and a reason. The result
/// is a function of the two alone.
pub uninterp spec fn close_frame_new(code: u16, reason: Seq<char>) -> CloseFrame<'static>;

/// `CloseFrame::NORMAL`: the frame that closes a session for good, which the
/// source defines as `CloseFrame::new(1000, "closing connection")`.
#[verifier::external_body]
pub(crate) fn normal_close_frame() -> (frame: CloseFrame<'static>)
    ensures
        frame == close_frame_new(1000, "closing connection"@),
{
    CloseFrame::NORMAL
}

/// `CloseFrame::RESUME`: the frame that keeps the session resumable, which the
/// source defines as `CloseFrame::new(4000, "resuming connection")`.
#[verifier::external_body]
pub(crate) fn resume_close_frame() -> (frame: CloseFrame<'static>)
    ensures
        frame == close_frame_new(4000, "resuming connection"@),
{
    CloseFrame::RESUME
}

/// The gateway opcodes that `OpCode::from` knows.
pub open spec fn is_known_opcode(code: u8) -> bool {
    code <= 4 || (6 <= code && code <= 11)
}

#[verifier::external_type_specification]
#[verifier::external_body]
pub struct ExRequestGuildMembersInfo(RequestGuildMembersInfo);

#[verifier::external_type_specification]
#[verifier::external_body]
pub struct ExUpdateVoiceStateInfo(UpdateVoiceStateInfo);

#[verifier::external_type_specification]
#[verifier::external_body]
pub struct ExUpdatePresencePayload(UpdatePresencePayload);

#[verifier::external_type_specification]
#[verifier::external_body]
pub struct ExJsonError(serde_json::Error);

/// `RequestGuildMembersInfo::clone` (derived): the copy equals the value cloned.
pub assume_specification[ <RequestGuildMembersInfo as Clone>::clone ](info: &RequestGuildMembersInfo) -> (copy: RequestGuildMembersInfo)
    ensures
        copy == *info,
;

/// `UpdateVoiceStateInfo::clone` (derived): the copy equals the value cloned.
pub assume_specification[ <UpdateVoiceStateInfo as Clone>::clone ](info: &UpdateVoiceStateInfo) -> (copy: UpdateVoiceStateInfo)
    ensures
        copy == *info,
;

/// `UpdatePresencePayload::clone` (derived): the copy equals the value cloned.
pub assume_specification[ <UpdatePresencePayload as Clone>::clone ](payload: &UpdatePresencePayload) -> (copy: UpdatePresencePayload)
    ensures
        copy == *payload,
;

/// The JSON that `serde_json::to_string` gives for the gateway payload of a
/// command: its data under `d`, and under `op` the opcode with the given code
/// (`OpCode::from`); nothing when serialization fails. The result is a
/// function of the two alone.
pub uninterp spec fn gateway_payload_json_of(code: u8, command: GatewayCommand) -> Option<Seq<char>>;

/// `OpCode::from` on the code (which names an opcode), then
/// `serde_json::to_string` on the gateway payload (`RequestGuildMembers`,
/// `UpdateVoiceState` or `UpdatePresence`) that holds the command's data under
/// that opcode. Why serialization fails, when it does, is not stated.
#[verifier::external_body]
pub(crate) fn gateway_payload_json(code: u8, command: GatewayCommand) -> (json: Result<String, serde_json::Error>)
    requires
        is_known_opcode(code),
    ensures
        match json {
            Ok(s) => gateway_payload_json_of(code, command) == Some(s@),
            Err(_) => gateway_payload_json_of(code, command) is None,
        },
{
    let op = OpCode::from(code).unwrap();
    match command {
        GatewayCommand::RequestGuildMembers(d) => serde_json::to_string(&RequestGuildMembers { d, op }),
        GatewayCommand::UpdateVoiceState(d) => serde_json::to_string(&UpdateVoiceState { d, op }),
        GatewayCommand::UpdatePresence(d) => serde_json::to_string(&UpdatePresence { d, op }),
    }
}

#[verifier::external_type_specification]
#[verifier::external_body]
pub struct ExDispatchEvent(DispatchEvent);

#[verifier::external_type_specification]
#[verifier::external_body]
pub struct ExEventType(EventType);

#[verifier::external_type_specification]
#[verifier::external_body]
pub struct ExReceiveMessageError(ReceiveMessageError);

/// What `GatewayEventDeserializer::from_json` finds in a gateway payload: its
/// opcode and its dispatch event type, or nothing when it finds no opcode.
pub uninterp spec fn gateway_header_of(json: Seq<char>) -> Option<(u8, Option<Seq<char>>)>;

/// The event type that a name stands for (`EventType::try_from`) with its flag
/// bits (`EventTypeFlags::from`), or nothing for a name that stands for no
/// event type.
pub uninterp spec fn known_event_type_of(name: Seq<char>) -> Option<KnownEventType>;

/// What the event loop reads of the dispatch event that a gateway payload holds
/// when it is read under the given opcode and event type (the guilds and resume
/// URL of `Ready`, the guild of `GuildCreate` and `GuildDelete`), or nothing
/// when it does not read as a dispatch event.
pub uninterp spec fn dispatch_kind_of(op: u8, event_type: Seq<char>, json: Seq<char>) -> Option<DispatchKindView>;

/// `GatewayEventDeserializer::from_json` followed by `into_parts`: the opcode
/// and the dispatch event type that a scan of the payload finds. The result is
/// a function of the payload alone.
#[verifier::external_body]
pub(crate) fn gateway_header(json: &str) -> (header: Option<GatewayHeader>)
    ensures
        match header {
            Some(h) => gateway_header_of(json@) == Some(h@),
            None => gateway_header_of(json@) is None,
        },
{
    GatewayEventDeserializer::from_json(json)
        .map(GatewayEventDeserializer::into_parts)
        .map(|(op, _, event_type)| GatewayHeader { op, event_type: event_type.map(Cow::into_owned) })
}

/// `EventType::try_from` on a name, and `EventTypeFlags::from` on the event
/// type it gives (its bits). Both are functions of the name alone.
#[verifier::external_body]
pub(crate) fn known_event_type(name: &str) -> (known: Option<KnownEventType>)
    ensures
        known == known_event_type_of(name@),
{
    match EventType::try_from(name) {
        Ok(kind) => Some(KnownEventType { kind, flag: EventTypeFlags::from(kind).bits() }),
        Err(_) => None,
    }
}

/// A dispatch event as one decode read it, together with what the event loop
/// reads of it. Only `decode_dispatch` builds one, so the two always come from
/// the same decode.
pub struct DecodedDispatch {
    event: DispatchEvent,
    kind: DispatchKind,
}

impl View for DecodedDispatch {
    type V = DispatchKindView;

    closed spec fn view(&self) -> DispatchKindView {
        self.kind@
    }
}

impl DecodedDispatch {
    /// What the event loop reads of the event.
    pub fn kind(&self) -> (kind: DispatchKind)
        ensures
            kind@ == self@,
    {
        self.kind.duplicate()
    }

    /// The event itself.
    pub fn into_event(self) -> DispatchEvent {
        self.event
    }
}

/// `GatewayEventDeserializer::new(op, Some(event_type))` seeded into
/// `serde_json`'s deserializer over the payload: the dispatch event it reads,
/// with what the event loop looks at in it (the guilds and resume URL of
/// `Ready`, the guild of `GuildCreate` and `GuildDelete`). `None` when the
/// payload fails to deserialize or is not a dispatch. Whether it reads, and
/// what the event loop looks at, are functions of the arguments alone; the
/// event itself is not (its maps are seeded anew at each decode), so nothing is
/// claimed of it.
#[verifier::external_body]
pub(crate) fn decode_dispatch(op: u8, event_type: &str, json: &str) -> (decoded: Option<DecodedDispatch>)
    ensures
        match decoded {
            Some(d) => dispatch_kind_of(op, event_type@, json@) == Some(d@),
            None => dispatch_kind_of(op, event_type@, json@) is None,
        },
{
    let seed = GatewayEventDeserializer::new(op, Some(event_type));
    let event = match seed.deserialize(&mut serde_json::Deserializer::from_str(json)) {
        Ok(GatewayEvent::Dispatch(_, event)) => event,
        Ok(_) | Err(_) => return None,
    };
    let kind = match &event {
        DispatchEvent::Ready(r) => DispatchKind::Ready { guild_ids: r.guilds.iter().map(|g| g.id.get()).collect(), resume_url: r.resume_gateway_url.clone() },
        DispatchEvent::Resumed => DispatchKind::Resumed,
        DispatchEvent::GuildCreate(g) => DispatchKind::GuildCreate { guild_id: g.id().get() },
        DispatchEvent::GuildDelete(g) => DispatchKind::GuildDelete { guild_id: g.id.get() },
        _ => DispatchKind::Other,
    };
    Some(DecodedDispatch { event, kind })
}

} // verus!
