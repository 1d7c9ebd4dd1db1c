//! The decisions a shard's event loop takes on each message from the gateway.
//!
//! The loop itself (waiting on the websocket, talking to the sidecar actor)
//! runs outside the library; it hands each message here together with what the
//! shard reports at that moment, and performs what comes back.

use vstd::prelude::*;
use std::time::Duration;
use twilight_gateway::Session;
use twilight_gateway::error::ReceiveMessageError;
use twilight_model::gateway::CloseFrame;
use twilight_model::gateway::event::{DispatchEvent, EventType};
use crate::command::{CloseStyle, OP_DISPATCH, OP_HEARTBEAT_ACK, OP_INVALID_SESSION};
use crate::info::{opt_chars, Heartbeat, ShardInfo, ShardInfoView, ShardState, Timestamp};
use crate::sidecar::{Dispatch, HeartbeatRtt};
use crate::trusted::{
    DecodedDispatch, decode_dispatch, dispatch_kind_of, gateway_header, gateway_header_of, known_event_type,
    known_event_type_of,
};

verus! {

/// What a scan of a gateway payload finds before it is deserialized.
pub struct GatewayHeader {
    pub op: u8,
    pub event_type: Option<String>,
}

impl View for GatewayHeader {
    type V = (u8, Option<Seq<char>>);

    open spec fn view(&self) -> (u8, Option<Seq<char>>) {
        (self.op, opt_chars(self.event_type))
    }
}

/// An event type name that names an event type, with its flag bits.
pub struct KnownEventType {
    pub kind: EventType,
    pub flag: u128,
}

/// What the event loop reads of a dispatch event.
pub enum DispatchKind {
    /// The session is ready: the guilds it starts with, and where to resume it.
    Ready { guild_ids: Vec<u64>, resume_url: String },
    /// The session was resumed.
    Resumed,
    /// A guild became available.
    GuildCreate { guild_id: u64 },
    /// A guild was left or became unavailable.
    GuildDelete { guild_id: u64 },
    /// Any other event.
    Other,
}

pub enum DispatchKindView {
    Ready { guild_ids: Seq<u64>, resume_url: Seq<char> },
    Resumed,
    GuildCreate { guild_id: u64 },
    GuildDelete { guild_id: u64 },
    Other,
}

impl View for DispatchKind {
    type V = DispatchKindView;

    open spec fn view(&self) -> DispatchKindView {
        match self {
            DispatchKind::Ready { guild_ids, resume_url } => DispatchKindView::Ready {
                guild_ids: guild_ids@,
                resume_url: resume_url@,
            },
            DispatchKind::Resumed => DispatchKindView::Resumed,
            DispatchKind::GuildCreate { guild_id } => DispatchKindView::GuildCreate {
                guild_id: *guild_id,
            },
            DispatchKind::GuildDelete { guild_id } => DispatchKindView::GuildDelete {
                guild_id: *guild_id,
            },
            DispatchKind::Other => DispatchKindView::Other,
        }
    }
}

impl DispatchKind {
    /// A copy of what the event loop reads of a dispatch event.
    pub fn duplicate(&self) -> (copy: DispatchKind)
        ensures
            copy@ == self@,
    {
        match self {
            DispatchKind::Ready { guild_ids, resume_url } => {
                let mut ids: Vec<u64> = Vec::new();
                let mut i: usize = 0;
                while i < guild_ids.len()
                    invariant
                        i <= guild_ids.len(),
                        ids@ == guild_ids@.subrange(0, i as int),
                    decreases guild_ids.len() - i,
                {
                    ids.push(guild_ids[i]);
                    i = i + 1;
                }
                assert(guild_ids@.subrange(0, guild_ids.len() as int) == guild_ids@);
                DispatchKind::Ready { guild_ids: ids, resume_url: resume_url.clone() }
            },
            DispatchKind::Resumed => DispatchKind::Resumed,
            DispatchKind::GuildCreate { guild_id } => DispatchKind::GuildCreate { guild_id: *guild_id },
            DispatchKind::GuildDelete { guild_id } => DispatchKind::GuildDelete { guild_id: *guild_id },
            DispatchKind::Other => DispatchKind::Other,
        }
    }
}

/// A message from the shard's stream.
pub enum Incoming {
    /// The stream ended: the shard is gone.
    Ended,
    /// Receiving the next message failed.
    Failed(ReceiveMessageError),
    /// The websocket was closed.
    Closed(Option<CloseFrame<'static>>),
    /// A JSON payload.
    Text(String),
}

pub enum IncomingView {
    Ended,
    Failed(ReceiveMessageError),
    Closed(Option<CloseFrame<'static>>),
    Text(Seq<char>),
}

impl View for Incoming {
    type V = IncomingView;

    open spec fn view(&self) -> IncomingView {
        match self {
            Incoming::Ended => IncomingView::Ended,
            Incoming::Failed(error) => IncomingView::Failed(*error),
            Incoming::Closed(frame) => IncomingView::Closed(*frame),
            Incoming::Text(json) => IncomingView::Text(json@),
        }
    }
}

/// What the shard reports about itself when a message arrives.
pub struct ShardSnapshot {
    /// Its connection state.
    pub state: ShardState,
    /// Its current session.
    pub session: Option<Session>,
    /// The URL to resume its session at.
    pub resume_url: Option<String>,
    /// The most recent heartbeat round trip time.
    pub latest_rtt: Option<Duration>,
}

pub struct ShardSnapshotView {
    pub state: ShardState,
    pub session: Option<Session>,
    pub resume_url: Option<Seq<char>>,
    pub latest_rtt: Option<Duration>,
}

impl View for ShardSnapshot {
    type V = ShardSnapshotView;

    open spec fn view(&self) -> ShardSnapshotView {
        ShardSnapshotView {
            state: self.state,
            session: self.session,
            resume_url: opt_chars(self.resume_url),
            latest_rtt: self.latest_rtt,
        }
    }
}

/// What the event loop passes on to the sidecar after a message.
pub enum SidecarNotice {
    /// A dispatch event the application observes.
    Dispatch(Dispatch),
    /// The round trip time of an acknowledged heartbeat.
    HeartbeatRtt(HeartbeatRtt),
}

pub enum SidecarNoticeView {
    Dispatch { event_type: EventType, data: Seq<char> },
    HeartbeatRtt(Duration),
}

pub open spec fn notice_view(notice: Option<SidecarNotice>) -> Option<SidecarNoticeView> {
    match notice {
        Some(SidecarNotice::Dispatch(d)) => Some(
            SidecarNoticeView::Dispatch { event_type: d.event_type, data: d.data@ },
        ),
        Some(SidecarNotice::HeartbeatRtt(HeartbeatRtt(rtt))) => Some(
            SidecarNoticeView::HeartbeatRtt(rtt),
        ),
        None => None,
    }
}

/// The hook of the application's event handler that a message calls for.
pub enum HandlerCall {
    /// `on_dispatch` with the event of this decoded dispatch.
    Dispatch(DecodedDispatch),
    /// `on_close` with this frame.
    Close(Option<CloseFrame<'static>>),
    /// `on_error` with this error.
    Error(ReceiveMessageError),
    /// No hook.
    Nothing,
}

/// Which hook a [`HandlerCall`] calls, with what the event loop reads of the
/// dispatch event it hands over, or the frame or error.
pub enum HandlerCallView {
    Dispatch(DispatchKindView),
    Close(Option<CloseFrame<'static>>),
    Error(ReceiveMessageError),
    Nothing,
}

impl View for HandlerCall {
    type V = HandlerCallView;

    open spec fn view(&self) -> HandlerCallView {
        match self {
            HandlerCall::Dispatch(decoded) => HandlerCallView::Dispatch(decoded@),
            HandlerCall::Close(frame) => HandlerCallView::Close(*frame),
            HandlerCall::Error(error) => HandlerCallView::Error(*error),
            HandlerCall::Nothing => HandlerCallView::Nothing,
        }
    }
}

/// What the event loop does after a message.
pub struct Outcome {
    /// Whether the loop stops.
    pub stop: bool,
    /// The event handler's hook to call.
    pub hook: HandlerCall,
    /// What goes to the sidecar.
    pub notice: Option<SidecarNotice>,
}

/// The model of one step: the next state, whether the loop stops, the hook to
/// call, and what goes to the sidecar.
pub struct Step {
    pub state: StateView,
    pub stop: bool,
    pub hook: HandlerCallView,
    pub notice: Option<SidecarNoticeView>,
}

/// The event loop's own state.
pub struct State {
    /// Whether the loop was asked to close the shard.
    pub shutting_down: bool,
    /// How many of the guilds of the last `Ready` have not arrived yet.
    pub initial_guilds_remaining: usize,
    /// The information that the loop publishes.
    pub info: ShardInfo,
    /// Whether `info` changed since it was last published.
    pub info_changed: bool,
    /// The guilds of the last `Ready`.
    pub initial_guilds: Vec<u64>,
}

pub struct StateView {
    pub shutting_down: bool,
    pub initial_guilds_remaining: nat,
    pub info: ShardInfoView,
    pub info_changed: bool,
    pub initial_guilds: Seq<u64>,
}

impl View for State {
    type V = StateView;

    open spec fn view(&self) -> StateView {
        StateView {
            shutting_down: self.shutting_down,
            initial_guilds_remaining: self.initial_guilds_remaining as nat,
            info: self.info@,
            info_changed: self.info_changed,
            initial_guilds: self.initial_guilds@,
        }
    }
}

/// One less, but never below zero.
pub open spec fn saturating_dec(n: nat) -> nat {
    if n == 0 {
        0
    } else {
        (n - 1) as nat
    }
}

/// The shard's state as reported now; a change marks the information changed.
pub open spec fn observe_state(s: StateView, shard_state: ShardState) -> StateView {
    if shard_state != s.info.state {
        StateView { info: ShardInfoView { state: shard_state, ..s.info }, info_changed: true, ..s }
    } else {
        s
    }
}

/// One of the guilds of the last `Ready` arrived or left: one fewer remains,
/// and the shard is fully ready when none remains.
pub open spec fn initial_guild_seen(s: StateView) -> StateView {
    let remaining = saturating_dec(s.initial_guilds_remaining);
    StateView {
        initial_guilds_remaining: remaining,
        info: ShardInfoView { full_ready: remaining == 0, ..s.info },
        ..s
    }
}

/// The state after a dispatch event, before the fully-ready check.
pub open spec fn dispatch_effect(
    s: StateView,
    kind: DispatchKindView,
    session: Option<Session>,
    now: Timestamp,
) -> StateView {
    match kind {
        DispatchKindView::Ready { guild_ids, resume_url } => StateView {
            initial_guilds: guild_ids,
            initial_guilds_remaining: guild_ids.len(),
            info: ShardInfoView {
                full_ready: false,
                session,
                ready_at: Some(now),
                resume_url: Some(resume_url),
                guild_count: if guild_ids.len() < u16::MAX {
                    guild_ids.len() as u16
                } else {
                    s.info.guild_count
                },
                ..s.info
            },
            info_changed: true,
            ..s
        },
        DispatchKindView::Resumed => StateView {
            info: ShardInfoView { full_ready: true, ..s.info },
            info_changed: true,
            ..s
        },
        DispatchKindView::GuildCreate { guild_id } => if s.initial_guilds.contains(guild_id) {
            initial_guild_seen(s)
        } else {
            StateView {
                info: ShardInfoView {
                    guild_count: if s.info.guild_count == u16::MAX {
                        u16::MAX
                    } else {
                        (s.info.guild_count + 1) as u16
                    },
                    ..s.info
                },
                info_changed: true,
                ..s
            }
        },
        DispatchKindView::GuildDelete { guild_id } => {
            let left = StateView {
                info: ShardInfoView {
                    guild_count: if s.info.guild_count == 0 {
                        0
                    } else {
                        (s.info.guild_count - 1) as u16
                    },
                    ..s.info
                },
                info_changed: true,
                ..s
            };
            if s.initial_guilds.contains(guild_id) {
                initial_guild_seen(left)
            } else {
                left
            }
        },
        DispatchKindView::Other => s,
    }
}

/// The state after a dispatch event: its effect, and the information marked
/// changed when the shard just became fully ready.
pub open spec fn dispatch_step(
    s: StateView,
    kind: DispatchKindView,
    session: Option<Session>,
    now: Timestamp,
) -> StateView {
    let after = dispatch_effect(s, kind, session, now);
    if !s.info.full_ready && after.info.full_ready {
        StateView { info_changed: true, ..after }
    } else {
        after
    }
}

/// The state after a heartbeat acknowledgement with the given round trip time.
pub open spec fn heartbeat_step(s: StateView, rtt: Duration, now: Timestamp) -> StateView {
    StateView {
        info: ShardInfoView { heartbeat: Some(Heartbeat { at: now, rtt }), ..s.info },
        info_changed: true,
        ..s
    }
}

/// The state after the session was invalidated.
pub open spec fn invalidated_step(s: StateView) -> StateView {
    StateView { info: s.info.without_session(), info_changed: true, ..s }
}

/// The state after the websocket closed, with the session and resume URL the
/// shard reports.
pub open spec fn closed_step(
    s: StateView,
    session: Option<Session>,
    resume_url: Option<Seq<char>>,
) -> StateView {
    StateView {
        info: ShardInfoView {
            session,
            resume_url,
            heartbeat: None,
            ..s.info
        },
        info_changed: true,
        ..s
    }
}

/// Whether a set of published event type flags holds all the bits of a flag
/// (`EventTypeFlags::contains`).
pub open spec fn publishes(published: u128, flag: u128) -> bool {
    published & flag == flag
}

/// The state after a JSON payload, the hook it calls for, and what goes to
/// the sidecar.
pub open spec fn text_step(
    s: StateView,
    json: Seq<char>,
    shard: ShardSnapshotView,
    published: u128,
    now: Timestamp,
) -> (StateView, HandlerCallView, Option<SidecarNoticeView>) {
    match gateway_header_of(json) {
        None => (s, HandlerCallView::Nothing, None),
        Some((op, event_type)) => if op == OP_DISPATCH {
            match event_type {
                None => (s, HandlerCallView::Nothing, None),
                Some(name) => match known_event_type_of(name) {
                    None => (s, HandlerCallView::Nothing, None),
                    Some(known) => match dispatch_kind_of(OP_DISPATCH, name, json) {
                        None => (s, HandlerCallView::Nothing, None),
                        Some(kind) => (
                            dispatch_step(s, kind, shard.session, now),
                            HandlerCallView::Dispatch(kind),
                            if publishes(published, known.flag) {
                                Some(SidecarNoticeView::Dispatch { event_type: known.kind, data: json })
                            } else {
                                None
                            },
                        ),
                    },
                },
            }
        } else if op == OP_HEARTBEAT_ACK {
            match shard.latest_rtt {
                None => (s, HandlerCallView::Nothing, None),
                Some(rtt) => (
                    heartbeat_step(s, rtt, now),
                    HandlerCallView::Nothing,
                    Some(SidecarNoticeView::HeartbeatRtt(rtt)),
                ),
            }
        } else if op == OP_INVALID_SESSION {
            (invalidated_step(s), HandlerCallView::Nothing, None)
        } else {
            (s, HandlerCallView::Nothing, None)
        },
    }
}

/// One step of the event loop on a message: the next state, whether the loop
/// stops, the event handler's hook to call, and what goes to the sidecar.
pub open spec fn message_step(
    s: StateView,
    item: IncomingView,
    shard: ShardSnapshotView,
    published: u128,
    now: Timestamp,
) -> Step {
    let observed = observe_state(s, shard.state);
    match item {
        IncomingView::Ended => Step {
            state: observed,
            stop: true,
            hook: HandlerCallView::Nothing,
            notice: None,
        },
        IncomingView::Failed(error) => Step {
            state: observed,
            stop: false,
            hook: HandlerCallView::Error(error),
            notice: None,
        },
        IncomingView::Closed(frame) => Step {
            state: closed_step(observed, shard.session, shard.resume_url),
            stop: observed.shutting_down,
            hook: HandlerCallView::Close(frame),
            notice: None,
        },
        IncomingView::Text(json) => {
            let (next, hook, notice) = text_step(observed, json, shard, published, now);
            Step { state: next, stop: false, hook, notice }
        },
    }
}

/// Whether a list of guilds holds a guild.
fn contains_guild(guilds: &Vec<u64>, id: u64) -> (found: bool)
    ensures
        found == guilds@.contains(id),
{
    let mut i: usize = 0;
    while i < guilds.len()
        invariant
            i <= guilds.len(),
            forall|j: int| 0 <= j < i ==> guilds@[j] != id,
        decreases guilds.len() - i,
    {
        if guilds[i] == id {
            return true;
        }
        i = i + 1;
    }
    false
}

impl State {
    /// The state in which the loop starts: not shutting down, no initial
    /// guilds, and the given information with the shard's current state and
    /// not fully ready.
    pub fn start(info: ShardInfo, shard_state: ShardState) -> (state: State)
        ensures
            state@ == (StateView {
                shutting_down: false,
                initial_guilds_remaining: 0,
                info: ShardInfoView { state: shard_state, full_ready: false, ..info@ },
                info_changed: false,
                initial_guilds: Seq::empty(),
            }),
    {
        let mut info = info;
        info.state = shard_state;
        info.full_ready = false;
        State {
            shutting_down: false,
            initial_guilds_remaining: 0,
            info,
            info_changed: false,
            initial_guilds: Vec::new(),
        }
    }

    /// The information to publish, if it changed since it was last published;
    /// it is then no longer marked changed.
    pub fn take_changed_info(&mut self) -> (published: Option<ShardInfo>)
        ensures
            old(self).info_changed ==> published == Some(old(self).info),
            !old(self).info_changed ==> published is None,
            final(self)@ == (StateView { info_changed: false, ..old(self)@ }),
            final(self).info == old(self).info,
    {
        if self.info_changed {
            self.info_changed = false;
            Some(self.info.clone())
        } else {
            None
        }
    }

    /// Marks the loop as shutting down.
    pub fn begin_shutdown(&mut self)
        ensures
            final(self)@ == (StateView { shutting_down: true, ..old(self)@ }),
            final(self).info == old(self).info,
    {
        self.shutting_down = true;
    }

    /// The information to publish last, with the shard's final state.
    pub fn finish(self, shard_state: ShardState) -> (info: ShardInfo)
        ensures
            info@ == (ShardInfoView { state: shard_state, ..self.info@ }),
            info.cluster_id == self.info.cluster_id,
    {
        let mut info = self.info;
        info.state = shard_state;
        info
    }

    /// Takes note of the shard's current state: a change marks the information
    /// changed.
    pub fn observe_shard_state(&mut self, shard_state: ShardState)
        ensures
            final(self)@ == observe_state(old(self)@, shard_state),
    {
        if shard_state != self.info.state {
            self.info.state = shard_state;
            self.info_changed = true;
        }
    }

    fn initial_guild_seen(&mut self)
        ensures
            final(self)@ == initial_guild_seen(old(self)@),
    {
        self.initial_guilds_remaining = self.initial_guilds_remaining.saturating_sub(1);
        self.info.full_ready = self.initial_guilds_remaining == 0;
    }

    /// Takes a dispatch event into account, at the given time and with the
    /// shard's current session: `Ready` starts counting its guilds and records
    /// the session, `Resumed` makes the shard fully ready, and guilds that
    /// arrive or leave are counted (those of the last `Ready` only once).
    pub fn apply_dispatch(&mut self, kind: DispatchKind, session: Option<Session>, now: Timestamp)
        ensures
            final(self)@ == dispatch_step(old(self)@, kind@, session, now),
    {
        let is_full_ready = self.info.full_ready;
        match kind {
            DispatchKind::Ready { guild_ids, resume_url } => {
                let guilds = guild_ids.len();
                self.initial_guilds = guild_ids;
                self.info.full_ready = false;
                self.info.session = session;
                self.info.ready_at = Some(now);
                self.info.resume_url = Some(resume_url);
                self.initial_guilds_remaining = guilds;
                if guilds < 65535 {
                    self.info.guild_count = guilds as u16;
                }
                self.info_changed = true;
            },
            DispatchKind::Resumed => {
                self.info.full_ready = true;
                self.info_changed = true;
            },
            DispatchKind::GuildCreate { guild_id } => {
                if contains_guild(&self.initial_guilds, guild_id) {
                    self.initial_guild_seen();
                } else {
                    self.info.guild_count = self.info.guild_count.saturating_add(1);
                    self.info_changed = true;
                }
            },
            DispatchKind::GuildDelete { guild_id } => {
                self.info.guild_count = self.info.guild_count.saturating_sub(1);
                self.info_changed = true;
                if contains_guild(&self.initial_guilds, guild_id) {
                    self.initial_guild_seen();
                }
            },
            DispatchKind::Other => {},
        }
        if !is_full_ready && self.info.full_ready {
            self.info_changed = true;
        }
    }
}

impl State {
    /// Records an acknowledged heartbeat with the shard's latest round trip
    /// time, which then goes to the sidecar; without one nothing changes.
    pub fn record_heartbeat(&mut self, latest_rtt: Option<Duration>, now: Timestamp) -> (notice: Option<
        HeartbeatRtt,
    >)
        ensures
            match latest_rtt {
                None => final(self)@ == old(self)@ && notice is None,
                Some(rtt) => final(self)@ == heartbeat_step(old(self)@, rtt, now) && notice
                    == Some(HeartbeatRtt(rtt)),
            },
    {
        match latest_rtt {
            None => None,
            Some(rtt) => {
                self.info.heartbeat = Some(Heartbeat { at: now, rtt });
                self.info_changed = true;
                Some(HeartbeatRtt(rtt))
            },
        }
    }

    /// Forgets the session after the gateway invalidated it.
    pub fn invalidate(&mut self)
        ensures
            final(self)@ == invalidated_step(old(self)@),
    {
        self.info.invalidate_session();
        self.info_changed = true;
    }

    /// Records a closed websocket: the shard's session and resume URL are kept
    /// for resuming, the last heartbeat is forgotten. Returns whether the loop
    /// stops, which it does when it was shutting down.
    pub fn record_close(&mut self, session: Option<Session>, resume_url: Option<String>) -> (stop:
        bool)
        ensures
            final(self)@ == closed_step(old(self)@, session, opt_chars(resume_url)),
            stop == old(self).shutting_down,
    {
        self.info.session = session;
        self.info.resume_url = resume_url;
        self.info.heartbeat = None;
        self.info_changed = true;
        self.shutting_down
    }
}

/// The observation of a dispatch event that goes to the sidecar: one exactly
/// when the published flags hold the event type's flag.
pub fn dispatch_notice(published: u128, event_type: KnownEventType, data: String) -> (notice:
    Option<Dispatch>)
    ensures
        notice is Some <==> publishes(published, event_type.flag),
        notice matches Some(d) ==> d.data == data && d.event_type == event_type.kind,
{
    if published & event_type.flag == event_type.flag {
        Some(Dispatch { event_type: event_type.kind, data })
    } else {
        None
    }
}

fn handle_text(
    published: u128,
    state: &mut State,
    json: String,
    shard: ShardSnapshot,
    now: Timestamp,
) -> (outcome: (HandlerCall, Option<SidecarNotice>))
    ensures
        ({
            let (next, hook, n) = text_step(old(state)@, json@, shard@, published, now);
            &&& final(state)@ == next
            &&& outcome.0@ == hook
            &&& notice_view(outcome.1) == n
        }),
{
    let header = match gateway_header(json.as_str()) {
        Some(h) => h,
        None => return (HandlerCall::Nothing, None),
    };
    if header.op == OP_DISPATCH {
        let name = match header.event_type {
            Some(name) => name,
            None => return (HandlerCall::Nothing, None),
        };
        let known = match known_event_type(name.as_str()) {
            Some(known) => known,
            None => return (HandlerCall::Nothing, None),
        };
        let decoded = match decode_dispatch(OP_DISPATCH, name.as_str(), json.as_str()) {
            Some(decoded) => decoded,
            None => return (HandlerCall::Nothing, None),
        };
        state.apply_dispatch(decoded.kind(), shard.session, now);
        let notice = match dispatch_notice(published, known, json) {
            Some(dispatch) => Some(SidecarNotice::Dispatch(dispatch)),
            None => None,
        };
        (HandlerCall::Dispatch(decoded), notice)
    } else if header.op == OP_HEARTBEAT_ACK {
        match state.record_heartbeat(shard.latest_rtt, now) {
            Some(rtt) => (HandlerCall::Nothing, Some(SidecarNotice::HeartbeatRtt(rtt))),
            None => (HandlerCall::Nothing, None),
        }
    } else if header.op == OP_INVALID_SESSION {
        state.invalidate();
        (HandlerCall::Nothing, None)
    } else {
        (HandlerCall::Nothing, None)
    }
}

/// Takes one message from the shard's stream at the given time: updates the
/// loop's state as `message_step` says, and returns whether the loop stops,
/// the event handler's hook to call (the error of a failed receive, the frame
/// of a close, the event of a dispatch that decodes, and nothing otherwise),
/// and what goes to the sidecar.
pub fn apply_message(
    published: u128,
    state: &mut State,
    item: Incoming,
    shard: ShardSnapshot,
    now: Timestamp,
) -> (outcome: Outcome)
    ensures
        ({
            let step = message_step(old(state)@, item@, shard@, published, now);
            &&& final(state)@ == step.state
            &&& outcome.stop == step.stop
            &&& outcome.hook@ == step.hook
            &&& notice_view(outcome.notice) == step.notice
        }),
{
    state.observe_shard_state(shard.state);
    match item {
        Incoming::Ended => Outcome { stop: true, hook: HandlerCall::Nothing, notice: None },
        Incoming::Failed(error) => Outcome {
            stop: false,
            hook: HandlerCall::Error(error),
            notice: None,
        },
        Incoming::Closed(frame) => {
            let stop = state.record_close(shard.session, shard.resume_url);
            Outcome { stop, hook: HandlerCall::Close(frame), notice: None }
        },
        Incoming::Text(json) => {
            let (hook, notice) = handle_text(published, state, json, shard, now);
            Outcome { stop: false, hook, notice }
        },
    }
}

/// Where the event loop is: reading messages, draining them after a close was
/// requested, or done.
#[derive(Clone, Copy, Debug, PartialEq, Eq, Structural)]
pub enum LoopPhase {
    Running,
    Draining,
    Finished,
}

/// What happened in the event loop.
pub enum LoopEvent {
    /// The application asked to close the shard in this style.
    CloseRequested(CloseStyle),
    /// A message was taken; `stop` is what the step said.
    MessageHandled { stop: bool },
}

/// What the event loop does next.
pub struct LoopActions {
    /// Close the shard's connection in this style.
    pub close_with: Option<CloseStyle>,
    /// Publish this information to the sidecar.
    pub publish: Option<ShardInfo>,
}

/// The event loop's sequencing. While running, a close request marks the loop
/// as shutting down, closes the connection in the requested style and starts
/// draining; a handled message publishes the information if it changed, or
/// ends the loop when the step said stop (without publishing). While draining,
/// messages are taken until the step says stop, and nothing is published. A
/// finished loop stays finished, and a second close request changes nothing.
pub fn loop_step(phase: LoopPhase, state: &mut State, event: LoopEvent) -> (next: (
    LoopPhase,
    LoopActions,
))
    ensures
        final(state).info == old(state).info,
        match (phase, event) {
            (LoopPhase::Running, LoopEvent::CloseRequested(style)) => {
                &&& next.0 == LoopPhase::Draining
                &&& next.1.close_with == Some(style)
                &&& next.1.publish is None
                &&& final(state)@ == (StateView { shutting_down: true, ..old(state)@ })
            },
            (LoopPhase::Running, LoopEvent::MessageHandled { stop }) => if stop {
                &&& next.0 == LoopPhase::Finished
                &&& next.1.close_with is None
                &&& next.1.publish is None
                &&& final(state)@ == old(state)@
            } else {
                &&& next.0 == LoopPhase::Running
                &&& next.1.close_with is None
                &&& old(state).info_changed ==> next.1.publish == Some(old(state).info)
                &&& !old(state).info_changed ==> next.1.publish is None
                &&& final(state)@ == (StateView { info_changed: false, ..old(state)@ })
            },
            (LoopPhase::Draining, LoopEvent::MessageHandled { stop }) => {
                &&& next.0 == (if stop {
                    LoopPhase::Finished
                } else {
                    LoopPhase::Draining
                })
                &&& next.1.close_with is None
                &&& next.1.publish is None
                &&& final(state)@ == old(state)@
            },
            _ => {
                &&& next.0 == phase
                &&& next.1.close_with is None
                &&& next.1.publish is None
                &&& final(state)@ == old(state)@
            },
        },
{
    let nothing = LoopActions { close_with: None, publish: None };
    match phase {
        LoopPhase::Running => match event {
            LoopEvent::CloseRequested(style) => {
                state.begin_shutdown();
                (LoopPhase::Draining, LoopActions { close_with: Some(style), publish: None })
            },
            LoopEvent::MessageHandled { stop } => {
                if stop {
                    (LoopPhase::Finished, nothing)
                } else {
                    let publish = state.take_changed_info();
                    (LoopPhase::Running, LoopActions { close_with: None, publish })
                }
            },
        },
        LoopPhase::Draining => match event {
            LoopEvent::MessageHandled { stop } => {
                if stop {
                    (LoopPhase::Finished, nothing)
                } else {
                    (LoopPhase::Draining, nothing)
                }
            },
            LoopEvent::CloseRequested(_) => (LoopPhase::Draining, nothing),
        },
        LoopPhase::Finished => (LoopPhase::Finished, nothing),
    }
}

} // verus!
