//! Node configuration the engine reads.

use vstd::prelude::*;

verus! {

/// The local node's own identity and limits.
pub struct Settings {
    /// The node's own domain, which no inbound activity may declare.
    pub hostname: String,
    /// The URL prefix under which the node publishes, e.g. scheme and host.
    pub protocol_and_hostname: String,
    /// How many remote resolutions one inbound pipeline execution may trigger.
    pub fetch_limit: u32,
    /// Words that local content may not carry.
    pub slur_list: Vec<String>,
}

} // verus!
