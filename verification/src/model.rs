//! The value types that one invocation of the client passes around: the
//! parsed command, the output format, and the payloads of the wire contract.

use vstd::prelude::*;

verus! {

/// Output format selected once per invocation; it governs every message the
/// invocation emits.
#[derive(Clone, Copy, PartialEq, Eq, Structural, Debug)]
pub enum PrintFormat {
    Normal,
    Json,
}

/// One server-ranked entry summarizing row counts for a frequent query.
#[derive(Clone, Debug)]
pub struct TopQuery {
    pub rows_written: i32,
    pub rows_read: i32,
    pub query: String,
}

/// Mathematical value of a [`TopQuery`].
#[verifier::ext_equal]
pub struct TopQueryView {
    pub rows_written: int,
    pub rows_read: int,
    pub query: Seq<char>,
}

impl View for TopQuery {
    type V = TopQueryView;

    open spec fn view(&self) -> TopQueryView {
        TopQueryView {
            rows_written: self.rows_written as int,
            rows_read: self.rows_read as int,
            query: self.query@,
        }
    }
}

/// Read-only statistics snapshot for one namespace.
#[derive(Clone, Debug)]
pub struct NamespaceStats {
    pub rows_read_count: u64,
    pub rows_written_count: u64,
    pub storage_bytes_used: u64,
    pub write_requests_delegated: u64,
    pub replication_index: u64,
    pub top_queries: Vec<TopQuery>,
}

/// Mathematical value of a [`NamespaceStats`].
#[verifier::ext_equal]
pub struct StatsView {
    pub rows_read_count: nat,
    pub rows_written_count: nat,
    pub storage_bytes_used: nat,
    pub write_requests_delegated: nat,
    pub replication_index: nat,
    pub top_queries: Seq<TopQueryView>,
}

impl View for NamespaceStats {
    type V = StatsView;

    open spec fn view(&self) -> StatsView {
        StatsView {
            rows_read_count: self.rows_read_count as nat,
            rows_written_count: self.rows_written_count as nat,
            storage_bytes_used: self.storage_bytes_used as nat,
            write_requests_delegated: self.write_requests_delegated as nat,
            replication_index: self.replication_index as nat,
            top_queries: self.top_queries@.map_values(|q: TopQuery| q@),
        }
    }
}

/// The sequence of views of a sequence of top-query entries.
pub open spec fn tq_views(qs: Seq<TopQuery>) -> Seq<TopQueryView> {
    qs.map_values(|q: TopQuery| q@)
}

/// The statistics value that one invocation renders: the snapshot itself when
/// top queries were requested, and the snapshot with the top-query list
/// cleared otherwise.
pub open spec fn filtered(v: StatsView, include_top_queries: bool) -> StatsView {
    if include_top_queries {
        v
    } else {
        StatsView { top_queries: Seq::empty(), ..v }
    }
}

/// Mutable namespace configuration, passed through the config endpoints.
#[derive(Clone, Debug)]
pub struct Config {
    pub block_reads: bool,
    pub block_writes: bool,
    pub block_reason: Option<String>,
    pub max_db_size: Option<String>,
}

/// Structured error carried by a non-2xx response to a lifecycle call.
#[derive(Clone, Debug)]
pub struct ServerError {
    pub error: String,
}

/// The closed set of subcommands; exactly one is executed per invocation.
#[derive(Clone, Debug)]
pub enum Command {
    Stats { namespace: String, include_top_queries: bool },
    CreateNamespace { name: String },
    DeleteNamespace { name: String },
    Fork { from: String, to: String },
}

} // verus!
