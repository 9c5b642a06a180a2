use vstd::prelude::*;

verus! {

/// How fresh the data of a read must be.
#[derive(Clone, Copy, Debug, PartialEq, Eq, Structural)]
pub enum Consistency {
    /// The server's own default: served by the leader, without a quorum check.
    Default,
    /// Any server may answer, however far behind the leader it is.
    Stale,
    /// The leader confirms its leadership with a quorum before answering.
    Consistent,
}

/// Parameters that a caller passes to one read.
///
/// Every field left `None` inherits from the client's configuration.
#[derive(Clone, Debug, PartialEq, Eq)]
pub struct QueryOptions {
    /// The datacenter to ask, in place of the client's default.
    pub datacenter: Option<String>,
    /// Block until the data has changed past this index. Zero asks for no blocking.
    pub wait_index: Option<u64>,
    /// The longest time, in seconds, that the server may hold a blocking read.
    pub wait_time_secs: Option<u64>,
    /// How fresh the answer must be.
    pub consistency: Consistency,
    /// The token to send, in place of the client's default.
    pub token: Option<String>,
}

/// The options that mean "no override, no blocking".
pub open spec fn no_query_options() -> QueryOptions {
    QueryOptions {
        datacenter: None,
        wait_index: None,
        wait_time_secs: None,
        consistency: Consistency::Default,
        token: None,
    }
}

impl Default for QueryOptions {
    fn default() -> (r: QueryOptions)
        ensures
            r == no_query_options(),
    {
        QueryOptions {
            datacenter: None,
            wait_index: None,
            wait_time_secs: None,
            consistency: Consistency::Default,
            token: None,
        }
    }
}

/// Parameters that a caller passes to one write.
#[derive(Clone, Debug, PartialEq, Eq)]
pub struct WriteOptions {
    /// The datacenter to write to, in place of the client's default.
    pub datacenter: Option<String>,
    /// The token to send, in place of the client's default.
    pub token: Option<String>,
}

/// The write options that override nothing.
pub open spec fn no_write_options() -> WriteOptions {
    WriteOptions { datacenter: None, token: None }
}

impl Default for WriteOptions {
    fn default() -> (r: WriteOptions)
        ensures
            r == no_write_options(),
    {
        WriteOptions { datacenter: None, token: None }
    }
}

/// What a read returns beside its value.
#[derive(Clone, Debug, PartialEq, Eq)]
pub struct QueryMeta {
    /// The server's change index for the data read; pass it back as the next
    /// read's `wait_index` to wait for newer data.
    pub last_index: u64,
    /// The content hash that later protocol versions block on, when sent.
    pub last_content_hash: Option<String>,
    /// Whether the answering server knew of a cluster leader.
    pub known_leader: bool,
    /// The time the round trip took, in milliseconds.
    pub request_time_ms: u64,
}

/// What a write returns beside its value.
#[derive(Clone, Copy, Debug, PartialEq, Eq, Structural)]
pub struct WriteMeta {
    /// The time the round trip took, in milliseconds.
    pub request_time_ms: u64,
}

} // verus!
