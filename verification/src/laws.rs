//! Properties of the event loop's decisions that hold for every message.

use vstd::prelude::*;
use crate::event_loop::{
    dispatch_step, message_step, publishes, HandlerCallView, IncomingView, ShardSnapshotView,
    SidecarNoticeView,
    StateView, DispatchKindView,
};
use crate::command::GatewayCommand;
use crate::info::{Heartbeat, ShardInfoView, Timestamp};
use crate::trusted::{dispatch_kind_of, gateway_header_of, known_event_type_of};

verus! {

/// The loop stops exactly when the shard's stream ended, or when the websocket
/// closed while the loop was shutting down.
pub proof fn stops_only_when_stream_ends_or_closes_on_shutdown(
    s: StateView,
    item: IncomingView,
    shard: ShardSnapshotView,
    published: u128,
    now: Timestamp,
)
    ensures
        message_step(s, item, shard, published, now).stop <==> (item is Ended || (item is Closed
            && s.shutting_down)),
{
}

/// No message changes whether the loop is shutting down, which shard the
/// information is about, or which cluster it belongs to.
pub proof fn messages_keep_identity_and_shutdown(
    s: StateView,
    item: IncomingView,
    shard: ShardSnapshotView,
    published: u128,
    now: Timestamp,
)
    ensures
        ({
            let next = message_step(s, item, shard, published, now).state;
            &&& next.shutting_down == s.shutting_down
            &&& next.info.shard_id == s.info.shard_id
            &&& next.info.cluster_id == s.info.cluster_id
        }),
{
}

/// After any message the published state is the one the shard reports.
pub proof fn state_follows_the_shard(
    s: StateView,
    item: IncomingView,
    shard: ShardSnapshotView,
    published: u128,
    now: Timestamp,
)
    ensures
        message_step(s, item, shard, published, now).state.info.state == shard.state,
{
}

/// A change stays marked until it is published: no message clears the mark,
/// and a change of the shard's state sets it.
pub proof fn changes_stay_marked(
    s: StateView,
    item: IncomingView,
    shard: ShardSnapshotView,
    published: u128,
    now: Timestamp,
)
    ensures
        ({
            let next = message_step(s, item, shard, published, now).state;
            &&& s.info_changed ==> next.info_changed
            &&& shard.state != s.info.state ==> next.info_changed
        }),
{
}

/// Every change of the published information is marked, so that it reaches
/// the application, unless the shard was fully ready with more than one guild
/// of the last `Ready` still to come (an arriving initial guild then clears
/// readiness without marking it).
pub proof fn information_changes_are_marked(
    s: StateView,
    item: IncomingView,
    shard: ShardSnapshotView,
    published: u128,
    now: Timestamp,
)
    requires
        !s.info.full_ready || s.initial_guilds_remaining <= 1,
    ensures
        ({
            let next = message_step(s, item, shard, published, now).state;
            next.info != s.info ==> next.info_changed
        }),
{
}

/// When the shard becomes fully ready, the information is marked changed, so
/// that the application learns of it.
pub proof fn becoming_fully_ready_is_published(
    s: StateView,
    item: IncomingView,
    shard: ShardSnapshotView,
    published: u128,
    now: Timestamp,
)
    ensures
        ({
            let next = message_step(s, item, shard, published, now).state;
            !s.info.full_ready && next.info.full_ready ==> next.info_changed
        }),
{
}

/// A message that failed to arrive changes nothing but the shard's state, and
/// hands its error to the event handler's `on_error`; nothing goes to the
/// sidecar.
pub proof fn failures_change_only_the_state(
    s: StateView,
    error: twilight_gateway::error::ReceiveMessageError,
    shard: ShardSnapshotView,
    published: u128,
    now: Timestamp,
)
    ensures
        ({
            let step = message_step(s, IncomingView::Failed(error), shard, published, now);
            &&& step.state.info == ShardInfoView { state: shard.state, ..s.info }
            &&& step.state.initial_guilds == s.initial_guilds
            &&& step.state.initial_guilds_remaining == s.initial_guilds_remaining
            &&& step.state.info_changed == (s.info_changed || shard.state != s.info.state)
            &&& step.state.shutting_down == s.shutting_down
            &&& step.hook == HandlerCallView::Error(error)
            &&& step.notice is None
            &&& !step.stop
        }),
{
}

/// A closed websocket forgets the last heartbeat, takes the shard's session
/// and resume URL, keeps everything else (the guilds counted, the initial
/// guilds still to come, readiness), marks the information changed, stops the
/// loop only when it is shutting down, and hands the frame to the
/// event handler's `on_close`; nothing goes to the sidecar.
pub proof fn close_takes_the_shards_session(
    s: StateView,
    frame: Option<twilight_model::gateway::CloseFrame<'static>>,
    shard: ShardSnapshotView,
    published: u128,
    now: Timestamp,
)
    ensures
        ({
            let step = message_step(s, IncomingView::Closed(frame), shard, published, now);
            &&& step.state.info == ShardInfoView {
                state: shard.state,
                session: shard.session,
                resume_url: shard.resume_url,
                heartbeat: None,
                ..s.info
            }
            &&& step.state.initial_guilds == s.initial_guilds
            &&& step.state.initial_guilds_remaining == s.initial_guilds_remaining
            &&& step.state.shutting_down == s.shutting_down
            &&& step.state.info_changed
            &&& step.stop == s.shutting_down
            &&& step.hook == HandlerCallView::Close(frame)
            &&& step.notice is None
        }),
{
}

/// A session invalidation forgets the session, its readiness, its resume URL
/// and the last heartbeat, and marks the information changed; it calls no hook
/// and sends nothing to the sidecar.
pub proof fn invalidation_forgets_the_session(
    s: StateView,
    json: Seq<char>,
    shard: ShardSnapshotView,
    published: u128,
    now: Timestamp,
)
    requires
        gateway_header_of(json) matches Some((op, _)) && op == 9,
    ensures
        ({
            let step = message_step(s, IncomingView::Text(json), shard, published, now);
            let next = step.state;
            &&& next.info == ShardInfoView {
                state: shard.state,
                session: None,
                ready_at: None,
                resume_url: None,
                heartbeat: None,
                full_ready: false,
                ..s.info
            }
            &&& next.initial_guilds == s.initial_guilds
            &&& next.initial_guilds_remaining == s.initial_guilds_remaining
            &&& next.info_changed
            &&& step.hook == HandlerCallView::Nothing
            &&& step.notice is None
            &&& !step.stop
        }),
{
}

/// An acknowledged heartbeat is recorded with its time and the shard's latest
/// round trip time, which also goes to the sidecar; nothing else changes (in
/// particular not readiness or the guilds).
pub proof fn heartbeat_ack_is_recorded(
    s: StateView,
    json: Seq<char>,
    shard: ShardSnapshotView,
    published: u128,
    now: Timestamp,
)
    requires
        gateway_header_of(json) matches Some((op, _)) && op == 11,
        shard.latest_rtt is Some,
    ensures
        ({
            let step = message_step(s, IncomingView::Text(json), shard, published, now);
            &&& step.state.info == ShardInfoView {
                state: shard.state,
                heartbeat: Some(Heartbeat { at: now, rtt: shard.latest_rtt->0 }),
                ..s.info
            }
            &&& step.state.initial_guilds == s.initial_guilds
            &&& step.state.initial_guilds_remaining == s.initial_guilds_remaining
            &&& step.state.info_changed
            &&& !step.stop
            &&& step.hook == HandlerCallView::Nothing
            &&& step.notice == Some(SidecarNoticeView::HeartbeatRtt(shard.latest_rtt->0))
        }),
{
}

/// A payload that is none of a dispatch event of a known type that decodes, a
/// heartbeat acknowledgement with a round trip time, or a session invalidation
/// (a reconnect request, a hello, an unreadable payload) changes nothing but the
/// shard's state, calls no hook and sends nothing to the sidecar.
pub proof fn other_payloads_change_only_the_state(
    s: StateView,
    json: Seq<char>,
    shard: ShardSnapshotView,
    published: u128,
    now: Timestamp,
)
    requires
        match gateway_header_of(json) {
            None => true,
            Some((op, event_type)) => {
                &&& op != 9
                &&& op == 11 ==> shard.latest_rtt is None
                &&& op == 0 ==> match event_type {
                    None => true,
                    Some(name) => known_event_type_of(name) is None || dispatch_kind_of(0, name, json) is None,
                }
            },
        },
    ensures
        ({
            let step = message_step(s, IncomingView::Text(json), shard, published, now);
            &&& step.state.info == ShardInfoView { state: shard.state, ..s.info }
            &&& step.state.initial_guilds == s.initial_guilds
            &&& step.state.initial_guilds_remaining == s.initial_guilds_remaining
            &&& step.state.shutting_down == s.shutting_down
            &&& step.state.info_changed == (s.info_changed || shard.state != s.info.state)
            &&& step.hook == HandlerCallView::Nothing
            &&& step.notice is None
            &&& !step.stop
        }),
{
}

/// A payload goes to the sidecar exactly when it reads as a dispatch event of
/// a known type whose flag the loop publishes; what goes is that event type
/// and the payload as it came.
pub proof fn only_published_dispatches_reach_the_sidecar(
    s: StateView,
    json: Seq<char>,
    shard: ShardSnapshotView,
    published: u128,
    now: Timestamp,
)
    ensures
        ({
            let notice = message_step(s, IncomingView::Text(json), shard, published, now).notice;
            &&& (notice matches Some(SidecarNoticeView::Dispatch { .. })) <==> {
                &&& gateway_header_of(json) matches Some((op, Some(name)))
                &&& op == 0
                &&& known_event_type_of(name) matches Some(known)
                &&& dispatch_kind_of(0, name, json) is Some
                &&& publishes(published, known.flag)
            }
            &&& notice matches Some(SidecarNoticeView::Dispatch { event_type, data }) ==> {
                &&& data == json
                &&& gateway_header_of(json) matches Some((_, Some(name)))
                &&& known_event_type_of(name) matches Some(known)
                &&& event_type == known.kind
            }
        }),
{
}

/// A payload calls the event handler's `on_dispatch` exactly when it reads as
/// a dispatch event of a known type, and then with the event decoded from it
/// under its own event type; any other payload calls no hook.
pub proof fn dispatches_reach_the_event_handler(
    s: StateView,
    json: Seq<char>,
    shard: ShardSnapshotView,
    published: u128,
    now: Timestamp,
)
    ensures
        ({
            let hook = message_step(s, IncomingView::Text(json), shard, published, now).hook;
            &&& !(hook is Close) && !(hook is Error)
            &&& (hook is Dispatch) <==> {
                &&& gateway_header_of(json) matches Some((op, Some(name)))
                &&& op == 0
                &&& known_event_type_of(name) is Some
                &&& dispatch_kind_of(0, name, json) is Some
            }
            &&& hook matches HandlerCallView::Dispatch(kind) ==> {
                &&& gateway_header_of(json) matches Some((_, Some(name)))
                &&& dispatch_kind_of(0, name, json) == Some(kind)
            }
        }),
{
}

/// The end of the stream calls no hook and sends nothing to the sidecar.
pub proof fn the_end_calls_no_hook(
    s: StateView,
    shard: ShardSnapshotView,
    published: u128,
    now: Timestamp,
)
    ensures
        ({
            let step = message_step(s, IncomingView::Ended, shard, published, now);
            step.hook == HandlerCallView::Nothing && step.notice is None && step.stop
        }),
{
}

/// `Ready` starts counting the guilds it lists: they become the initial guilds,
/// all of them remain, the shard is not fully ready unless it was told so
/// before, and the guild count is their number when a `u16` can hold it.
pub proof fn ready_starts_the_count(
    s: StateView,
    guild_ids: Seq<u64>,
    resume_url: Seq<char>,
    session: Option<twilight_gateway::Session>,
    now: Timestamp,
)
    ensures
        ({
            let next = dispatch_step(
                s,
                DispatchKindView::Ready { guild_ids, resume_url },
                session,
                now,
            );
            &&& next.initial_guilds == guild_ids
            &&& next.initial_guilds_remaining == guild_ids.len()
            &&& next.info == ShardInfoView {
                full_ready: false,
                session,
                ready_at: Some(now),
                resume_url: Some(resume_url),
                guild_count: next.info.guild_count,
                ..s.info
            }
            &&& guild_ids.len() < 65535 ==> next.info.guild_count == guild_ids.len()
            &&& guild_ids.len() >= 65535 ==> next.info.guild_count == s.info.guild_count
            &&& next.shutting_down == s.shutting_down
            &&& next.info_changed
        }),
{
}

/// Guilds of the last `Ready` are not counted again when they arrive; any
/// other guild that arrives adds one, up to the largest count.
pub proof fn initial_guilds_are_not_counted_twice(
    s: StateView,
    guild_id: u64,
    session: Option<twilight_gateway::Session>,
    now: Timestamp,
)
    ensures
        ({
            let next = dispatch_step(s, DispatchKindView::GuildCreate { guild_id }, session, now);
            &&& s.initial_guilds.contains(guild_id) ==> next.info.guild_count
                == s.info.guild_count
            &&& !s.initial_guilds.contains(guild_id) && s.info.guild_count < u16::MAX
                ==> next.info.guild_count == s.info.guild_count + 1
            &&& !s.initial_guilds.contains(guild_id) && s.info.guild_count == u16::MAX
                ==> next.info.guild_count == u16::MAX
        }),
{
}

/// When a guild of the last `Ready` arrives or leaves, the shard is fully
/// ready exactly when none of them remains.
pub proof fn fully_ready_when_no_initial_guild_remains(
    s: StateView,
    guild_id: u64,
    session: Option<twilight_gateway::Session>,
    now: Timestamp,
)
    requires
        s.initial_guilds.contains(guild_id),
    ensures
        ({
            let created = dispatch_step(s, DispatchKindView::GuildCreate { guild_id }, session, now);
            let deleted = dispatch_step(s, DispatchKindView::GuildDelete { guild_id }, session, now);
            &&& created.initial_guilds_remaining == if s.initial_guilds_remaining == 0 {
                0
            } else {
                s.initial_guilds_remaining - 1
            }
            &&& deleted.initial_guilds_remaining == created.initial_guilds_remaining
            &&& created.info.full_ready <==> created.initial_guilds_remaining == 0
            &&& deleted.info.full_ready <==> deleted.initial_guilds_remaining == 0
            &&& created.info.guild_count == s.info.guild_count
            &&& created.initial_guilds == s.initial_guilds
            &&& created.info_changed == (s.info_changed || (!s.info.full_ready
                && created.info.full_ready))
        }),
{
}

/// Apart from `Ready`, a dispatch event moves the guild count by at most one,
/// and never lets the number of remaining initial guilds grow or leave the
/// initial guilds changed.
pub proof fn dispatches_move_the_count_by_at_most_one(
    s: StateView,
    kind: DispatchKindView,
    session: Option<twilight_gateway::Session>,
    now: Timestamp,
)
    requires
        !(kind is Ready),
    ensures
        ({
            let next = dispatch_step(s, kind, session, now);
            &&& next.info.guild_count <= s.info.guild_count + 1
            &&& s.info.guild_count <= next.info.guild_count + 1
            &&& next.initial_guilds_remaining <= s.initial_guilds_remaining
            &&& next.initial_guilds == s.initial_guilds
        }),
{
}

/// A guild that is left always lowers the guild count by one, never below
/// zero, whether or not the shard is fully ready; a guild that is not one of
/// the last `Ready`'s changes neither readiness nor the guilds still to come.
pub proof fn leaving_a_guild_lowers_the_count(
    s: StateView,
    guild_id: u64,
    session: Option<twilight_gateway::Session>,
    now: Timestamp,
)
    ensures
        ({
            let next = dispatch_step(s, DispatchKindView::GuildDelete { guild_id }, session, now);
            &&& next.info.guild_count == if s.info.guild_count == 0 {
                0
            } else {
                s.info.guild_count - 1
            }
            &&& next.info_changed
            &&& next.initial_guilds == s.initial_guilds
            &&& !s.initial_guilds.contains(guild_id) ==> {
                &&& next.info.full_ready == s.info.full_ready
                &&& next.initial_guilds_remaining == s.initial_guilds_remaining
            }
            &&& next.info.session == s.info.session
            &&& next.info.heartbeat == s.info.heartbeat
        }),
{
}

/// `Resumed` makes the shard fully ready and marks the change; it keeps the
/// guilds, the session and everything else.
pub proof fn resumed_makes_the_shard_fully_ready(
    s: StateView,
    session: Option<twilight_gateway::Session>,
    now: Timestamp,
)
    ensures
        ({
            let next = dispatch_step(s, DispatchKindView::Resumed, session, now);
            &&& next.info == ShardInfoView { full_ready: true, ..s.info }
            &&& next.initial_guilds == s.initial_guilds
            &&& next.initial_guilds_remaining == s.initial_guilds_remaining
            &&& next.info_changed
        }),
{
}

/// A dispatch event the loop does not look at changes nothing.
pub proof fn other_dispatches_change_nothing(
    s: StateView,
    session: Option<twilight_gateway::Session>,
    now: Timestamp,
)
    ensures
        dispatch_step(s, DispatchKindView::Other, session, now) == s,
{
}

/// A guild arriving that is not one of the last `Ready`'s leaves readiness and
/// the initial guilds still to come alone.
pub proof fn other_guilds_arriving_keep_readiness(
    s: StateView,
    guild_id: u64,
    session: Option<twilight_gateway::Session>,
    now: Timestamp,
)
    requires
        !s.initial_guilds.contains(guild_id),
    ensures
        ({
            let next = dispatch_step(s, DispatchKindView::GuildCreate { guild_id }, session, now);
            &&& next.info.full_ready == s.info.full_ready
            &&& next.initial_guilds_remaining == s.initial_guilds_remaining
            &&& next.info_changed
        }),
{
}

/// Each gateway command goes out under its own opcode: a presence update
/// under 3 (`PresenceUpdate`), a voice state update under 4
/// (`VoiceStateUpdate`), a guild members request under 8
/// (`RequestGuildMembers`).
pub proof fn commands_go_out_under_their_opcodes(command: GatewayCommand)
    ensures
        command is UpdatePresence ==> command.opcode() == 3,
        command is UpdateVoiceState ==> command.opcode() == 4,
        command is RequestGuildMembers ==> command.opcode() == 8,
{
}

/// A shard that never connected is disconnected with no reconnection attempt,
/// and has no session, readiness, resume URL, heartbeat or guild.
pub proof fn a_fresh_shard_has_nothing(cluster_id: Option<Seq<char>>, id: twilight_model::gateway::ShardId)
    ensures
        ({
            let info = ShardInfoView::fresh(cluster_id, id);
            &&& info.cluster_id == cluster_id
            &&& info.shard_id == id
            &&& info.session is None
            &&& info.ready_at is None
            &&& info.resume_url is None
            &&& !info.full_ready
            &&& info.state == crate::info::ShardState::Disconnected { reconnect_attempts: 0 }
            &&& info.heartbeat is None
            &&& info.guild_count == 0
        }),
{
}

/// The loop publishes an event type exactly when its flag's bits are all among
/// the published ones: adding the flag to them adds nothing.
pub proof fn publishing_means_holding_every_bit(published: u128, flag: u128)
    ensures
        publishes(published, flag) <==> (published | flag) == published,
        publishes(published, 0),
        publishes(flag, flag),
{
    assert(((published & flag) == flag) <==> ((published | flag) == published)) by (bit_vector);
    assert((published & 0u128) == 0u128) by (bit_vector);
    assert((flag & flag) == flag) by (bit_vector);
}

/// Counting initial guilds never finds more remaining than there were.
pub proof fn remaining_never_exceeds_initial_guilds(
    s: StateView,
    item: IncomingView,
    shard: ShardSnapshotView,
    published: u128,
    now: Timestamp,
)
    requires
        s.initial_guilds_remaining <= s.initial_guilds.len(),
    ensures
        ({
            let next = message_step(s, item, shard, published, now).state;
            next.initial_guilds_remaining <= next.initial_guilds.len()
        }),
{
}

/// Forgetting a session twice is forgetting it once, and a shard that never
/// connected has no session to forget.
pub proof fn invalidating_is_idempotent(info: ShardInfoView)
    ensures
        info.without_session().session is None,
        info.without_session().ready_at is None,
        info.without_session().resume_url is None,
        info.without_session().heartbeat is None,
        !info.without_session().full_ready,
        info.without_session().cluster_id == info.cluster_id,
        info.without_session().shard_id == info.shard_id,
        info.without_session().state == info.state,
        info.without_session().guild_count == info.guild_count,
        info.without_session().without_session() == info.without_session(),
        ShardInfoView::fresh(info.cluster_id, info.shard_id).without_session()
            == ShardInfoView::fresh(info.cluster_id, info.shard_id),
{
}

} // verus!
