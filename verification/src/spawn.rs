//! The decisions taken when the shards of a cluster are created.

use vstd::prelude::*;
use twilight_gateway::Session;
use twilight_model::gateway::ShardId;
use crate::info::{clone_opt_string, opt_chars, ShardInfo, ShardInfoView};

verus! {

/// How to configure a shard from what was stored about it: the stored session
/// and resume URL, or none when nothing was stored.
pub fn resume_config(stored: &Option<ShardInfo>) -> (config: (Option<Session>, Option<String>))
    ensures
        match stored {
            Some(info) => config.0 == info.session && config.1 == info.resume_url,
            None => config.0 is None && config.1 is None,
        },
{
    match stored {
        Some(info) => {
            let session = match &info.session {
                Some(session) => Some(session.clone()),
                None => None,
            };
            (session, clone_opt_string(&info.resume_url))
        },
        None => (None, None),
    }
}

/// The information a shard starts with: what was stored about it, or that of a
/// shard that has never connected.
pub fn info_or_new(stored: Option<ShardInfo>, cluster_id: &Option<String>, id: ShardId) -> (info: ShardInfo)
    ensures
        match stored {
            Some(s) => info == s,
            None => info@ == ShardInfoView::fresh(opt_chars(*cluster_id), id),
        },
{
    match stored {
        Some(info) => info,
        None => ShardInfo::new(clone_opt_string(cluster_id), id),
    }
}

} // verus!
