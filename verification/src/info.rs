//! What a shard publishes about itself.

use vstd::prelude::*;
use std::time::Duration;
use twilight_gateway::Session;
use twilight_model::gateway::ShardId;

verus! {

/// The connection state of a shard, as the gateway client reports it.
#[derive(Clone, Copy, Debug, PartialEq, Eq, Structural)]
pub enum ShardState {
    /// Connected with an active session.
    Active,
    /// Disconnected, possibly reconnecting.
    Disconnected { reconnect_attempts: u8 },
    /// Closed for good.
    FatallyClosed,
    /// Waiting to establish or resume a session.
    Identifying,
    /// Replaying missed dispatch events.
    Resuming,
}

/// A point in time: whole seconds since the Unix epoch, and the nanoseconds
/// past them.
#[derive(Clone, Copy, Debug, PartialEq, Eq, PartialOrd, Ord, Hash, Structural)]
pub struct Timestamp {
    pub secs: i64,
    pub nanos: u32,
}

/// The last heartbeat that the gateway acknowledged.
#[derive(Clone, Copy, Debug, PartialEq, Eq, PartialOrd, Ord, Hash)]
pub struct Heartbeat {
    /// When the acknowledgement was seen.
    pub at: Timestamp,
    /// The round trip time of the heartbeat.
    pub rtt: Duration,
}

/// Everything that is stored about a shard between runs.
#[derive(Debug, PartialEq, Eq)]
pub struct ShardInfo {
    /// The ID of the cluster the shard is in.
    pub cluster_id: Option<String>,
    /// The ID of the shard.
    pub shard_id: ShardId,
    /// The session to use to resume the session.
    pub session: Option<Session>,
    /// The time the shard is ready to resume.
    pub ready_at: Option<Timestamp>,
    /// The Gateway URL to use to resume the session.
    pub resume_url: Option<String>,
    /// Whether the shard is fully ready, i.e., all initial guilds have been
    /// received.
    pub full_ready: bool,
    /// The current state of the shard.
    pub state: ShardState,
    /// The last heartbeat information.
    pub heartbeat: Option<Heartbeat>,
    /// The number of guilds the shard is currently in.
    pub guild_count: u16,
}

/// The view of an optional string: its characters.
pub open spec fn opt_chars(s: Option<String>) -> Option<Seq<char>> {
    match s {
        Some(v) => Some(v@),
        None => None,
    }
}

/// What a [`ShardInfo`] holds, with strings taken as their characters.
pub struct ShardInfoView {
    pub cluster_id: Option<Seq<char>>,
    pub shard_id: ShardId,
    pub session: Option<Session>,
    pub ready_at: Option<Timestamp>,
    pub resume_url: Option<Seq<char>>,
    pub full_ready: bool,
    pub state: ShardState,
    pub heartbeat: Option<Heartbeat>,
    pub guild_count: u16,
}

impl View for ShardInfo {
    type V = ShardInfoView;

    open spec fn view(&self) -> ShardInfoView {
        ShardInfoView {
            cluster_id: opt_chars(self.cluster_id),
            shard_id: self.shard_id,
            session: self.session,
            ready_at: self.ready_at,
            resume_url: opt_chars(self.resume_url),
            full_ready: self.full_ready,
            state: self.state,
            heartbeat: self.heartbeat,
            guild_count: self.guild_count,
        }
    }
}

impl ShardInfoView {
    /// The information of a shard that has never connected: disconnected with
    /// no reconnection attempt, no session, no heartbeat and no guilds.
    pub open spec fn fresh(cluster_id: Option<Seq<char>>, id: ShardId) -> ShardInfoView {
        ShardInfoView {
            cluster_id,
            shard_id: id,
            session: None,
            ready_at: None,
            resume_url: None,
            full_ready: false,
            state: ShardState::Disconnected { reconnect_attempts: 0 },
            heartbeat: None,
            guild_count: 0,
        }
    }

    /// The same information without anything that belongs to a session.
    pub open spec fn without_session(self) -> ShardInfoView {
        ShardInfoView {
            session: None,
            ready_at: None,
            resume_url: None,
            heartbeat: None,
            full_ready: false,
            ..self
        }
    }
}

impl ShardInfo {
    /// A shard that has not connected yet: disconnected, with no session, no
    /// heartbeat and no guilds.
    pub fn new(cluster_id: Option<String>, id: ShardId) -> (info: Self)
        ensures
            info.cluster_id == cluster_id,
            info@ == ShardInfoView::fresh(opt_chars(cluster_id), id),
    {
        ShardInfo {
            cluster_id,
            shard_id: id,
            session: None,
            resume_url: None,
            state: ShardState::Disconnected { reconnect_attempts: 0 },
            heartbeat: None,
            guild_count: 0,
            ready_at: None,
            full_ready: false,
        }
    }

    /// Forgets the session: its ID, when it became ready, where to resume it,
    /// the last heartbeat, and whether it was fully ready. The shard, its
    /// cluster, its state and its guild count stay.
    pub fn invalidate_session(&mut self)
        ensures
            final(self)@ == old(self)@.without_session(),
            final(self).cluster_id == old(self).cluster_id,
    {
        self.session = None;
        self.ready_at = None;
        self.resume_url = None;
        self.heartbeat = None;
        self.full_ready = false;
    }
}

/// A copy of an optional string.
pub fn clone_opt_string(s: &Option<String>) -> (copy: Option<String>)
    ensures
        copy == *s,
{
    match s {
        Some(v) => Some(v.clone()),
        None => None,
    }
}

impl Clone for ShardInfo {
    fn clone(&self) -> (copy: Self)
        ensures
            copy == *self,
    {
        let session = match &self.session {
            Some(s) => Some(s.clone()),
            None => None,
        };
        ShardInfo {
            cluster_id: clone_opt_string(&self.cluster_id),
            shard_id: self.shard_id,
            session,
            ready_at: self.ready_at,
            resume_url: clone_opt_string(&self.resume_url),
            full_ready: self.full_ready,
            state: self.state,
            heartbeat: self.heartbeat,
            guild_count: self.guild_count,
        }
    }
}

} // verus!
