//! What one invocation prints, on which stream, and with which exit status.
//!
//! Rendering is a function of the value being rendered and the selected
//! format alone, so the output of a fixed invocation is fixed. An
//! [`OutputPlan`] is handed to the surrounding binary, which writes each line
//! (and nothing else) and exits with the recorded status.

use vstd::prelude::*;
use vstd::string::StringExecFns;

use crate::json::error_json_string;
use crate::json::error_json_text;
use crate::json::stats_json_string;
use crate::json::stats_json_text;
use crate::json::success_json_string;
use crate::json::success_json_text;
use crate::json::top_queries_json;
use crate::model::NamespaceStats;
use crate::model::PrintFormat;
use crate::model::ServerError;
use crate::model::StatsView;
use crate::model::TopQueryView;
use crate::model::filtered;
use crate::text::append_i32;
use crate::text::append_u64;
use crate::text::dec_of;
use crate::text::dec_of_int;
use crate::text::u64_to_string;

verus! {

/// One enumerated line of the normal-format top-query listing.
pub open spec fn query_line(i: int, q: TopQueryView) -> Seq<char> {
    dec_of(i as nat) + ": RR: "@ + dec_of_int(q.rows_read) + " RW: "@ + dec_of_int(q.rows_written)
        + " Query: "@ + q.query
}

/// The normal-format lines for a statistics snapshot: the five scalar fields
/// in fixed order, then, only if the snapshot carries top queries, a heading
/// and one zero-indexed line per entry.
pub open spec fn stat_lines(v: StatsView) -> Seq<Seq<char>> {
    let scalars = seq![
        "Rows Read: "@ + dec_of(v.rows_read_count),
        "Rows Written: "@ + dec_of(v.rows_written_count),
        "Storage Used (B): "@ + dec_of(v.storage_bytes_used),
        "Write Requests Delegated: "@ + dec_of(v.write_requests_delegated),
        "Replication Index: "@ + dec_of(v.replication_index),
    ];
    if v.top_queries.len() == 0 {
        scalars
    } else {
        scalars.push("Top Queries (RR = Rows Read : RW = Rows Written):"@) + Seq::new(
            v.top_queries.len(),
            |i: int| query_line(i, v.top_queries[i]),
        )
    }
}

/// Renders the normal-format lines for the snapshot an invocation shows; the
/// top-query listing is omitted unless top queries were requested.
pub fn render_stats_lines(stats: &NamespaceStats, include_top_queries: bool) -> (lines: Vec<
    String,
>)
    ensures
        lines.deep_view() == stat_lines(filtered(stats@, include_top_queries)),
{
    let ghost target = stat_lines(filtered(stats@, include_top_queries));
    let mut lines: Vec<String> = Vec::new();

    let mut l = String::from_str("Rows Read: ");
    append_u64(&mut l, stats.rows_read_count);
    lines.push(l);

    let mut l = String::from_str("Rows Written: ");
    append_u64(&mut l, stats.rows_written_count);
    lines.push(l);

    let mut l = String::from_str("Storage Used (B): ");
    append_u64(&mut l, stats.storage_bytes_used);
    lines.push(l);

    let mut l = String::from_str("Write Requests Delegated: ");
    append_u64(&mut l, stats.write_requests_delegated);
    lines.push(l);

    let mut l = String::from_str("Replication Index: ");
    append_u64(&mut l, stats.replication_index);
    lines.push(l);

    if include_top_queries && stats.top_queries.len() > 0 {
        lines.push(String::from_str("Top Queries (RR = Rows Read : RW = Rows Written):"));
        proof {
            assert(target.len() == 6 + stats.top_queries@.len());
            assert(lines.deep_view() =~= target.take(6));
        }
        let n = stats.top_queries.len();
        let mut j: usize = 0;
        while j < n
            invariant
                n == stats.top_queries@.len(),
                j <= n,
                target == stat_lines(filtered(stats@, true)),
                target.len() == 6 + n,
                lines.deep_view() =~= target.take(6 + j as int),
            decreases n - j,
        {
            let q = &stats.top_queries[j];
            let mut l = u64_to_string(j as u64);
            l.append(": RR: ");
            append_i32(&mut l, q.rows_read);
            l.append(" RW: ");
            append_i32(&mut l, q.rows_written);
            l.append(" Query: ");
            l.append(q.query.as_str());
            proof {
                assert(filtered(stats@, true).top_queries[j as int] == stats.top_queries@[
                j as int]@);
                assert(l@ =~= query_line(j as int, filtered(stats@, true).top_queries[j as int]));
                assert(target[6 + j as int] == query_line(
                    j as int,
                    filtered(stats@, true).top_queries[j as int],
                ));
            }
            let ghost pre = lines@;
            let ghost predeep = lines.deep_view();
            lines.push(l);
            proof {
                let newdeep = lines.deep_view();
                assert(lines@ == pre.push(l));
                assert(newdeep.len() == lines@.len());
                assert(predeep.len() == pre.len());
                assert(pre.len() == 6 + j as int);
                assert forall|k: int| 0 <= k < newdeep.len() implies #[trigger] newdeep[k]
                    == target.take(6 + j as int + 1)[k] by {
                    assert(newdeep[k] == lines@[k].deep_view());
                    assert(target.take(6 + j as int + 1)[k] == target[k]);
                    if k < pre.len() {
                        assert(lines@[k] == pre[k]);
                        assert(predeep[k] == pre[k].deep_view());
                        assert(predeep[k] == target.take(6 + j as int)[k]);
                        assert(target.take(6 + j as int)[k] == target[k]);
                    } else {
                        assert(lines@[k] == l);
                        assert(l.deep_view() == l@);
                        assert(k == 6 + j as int);
                    }
                }
                assert(lines.deep_view() =~= target.take(6 + j as int + 1));
            }
            j = j + 1;
        }
        proof {
            assert(target.take(6 + n as int) =~= target);
        }
    } else {
        proof {
            assert(filtered(stats@, include_top_queries).top_queries.len() == 0);
            assert(lines.deep_view() =~= target);
        }
    }
    lines
}

/// Everything one invocation writes: the lines for the output stream, the
/// lines for the error stream, and the process exit status.
pub struct OutputPlan {
    pub out_lines: Vec<String>,
    pub err_lines: Vec<String>,
    pub exit_code: i32,
}

/// What a plan prints and how it exits.
pub open spec fn plan_prints(
    p: OutputPlan,
    out: Seq<Seq<char>>,
    err: Seq<Seq<char>>,
    code: i32,
) -> bool {
    &&& p.out_lines.deep_view() == out
    &&& p.err_lines.deep_view() == err
    &&& p.exit_code == code
}

/// The one line announcing a success without payload, per format.
pub open spec fn success_text(format: PrintFormat) -> Seq<char> {
    match format {
        PrintFormat::Normal => "Success"@,
        PrintFormat::Json => success_json_text(),
    }
}

/// The output-stream lines of a rendered server error: in JSON format the
/// error document goes to the output stream, in normal format nothing does.
pub open spec fn error_out_lines(msg: Seq<char>, format: PrintFormat) -> Seq<Seq<char>> {
    match format {
        PrintFormat::Normal => Seq::empty(),
        PrintFormat::Json => seq![error_json_text(msg)],
    }
}

/// The error-stream lines of a rendered server error: in normal format the
/// message goes to the error stream, in JSON format nothing does.
pub open spec fn error_err_lines(msg: Seq<char>, format: PrintFormat) -> Seq<Seq<char>> {
    match format {
        PrintFormat::Normal => seq!["Error: "@ + msg],
        PrintFormat::Json => Seq::empty(),
    }
}

/// The plan of a successful lifecycle command: one success line on the output
/// stream, nothing on the error stream, exit status zero.
pub fn success_output(format: PrintFormat) -> (p: OutputPlan)
    ensures
        plan_prints(p, seq![success_text(format)], Seq::empty(), 0),
{
    let line = match format {
        PrintFormat::Normal => String::from_str("Success"),
        PrintFormat::Json => success_json_string(),
    };
    let mut out_lines: Vec<String> = Vec::new();
    out_lines.push(line);
    let p = OutputPlan { out_lines, err_lines: Vec::new(), exit_code: 0 };
    proof {
        assert(p.out_lines.deep_view() =~= seq![success_text(format)]);
        assert(p.err_lines.deep_view() =~= Seq::<Seq<char>>::empty());
    }
    p
}

/// The plan of a failed lifecycle command: the server's message rendered in
/// the selected format, and a non-zero exit status.
pub fn error_output(err: &ServerError, format: PrintFormat) -> (p: OutputPlan)
    ensures
        plan_prints(
            p,
            error_out_lines(err.error@, format),
            error_err_lines(err.error@, format),
            -1i32,
        ),
        p.exit_code != 0,
{
    let mut out_lines: Vec<String> = Vec::new();
    let mut err_lines: Vec<String> = Vec::new();
    match format {
        PrintFormat::Normal => {
            let mut l = String::from_str("Error: ");
            l.append(err.error.as_str());
            err_lines.push(l);
        },
        PrintFormat::Json => {
            out_lines.push(error_json_string(err));
        },
    }
    let p = OutputPlan { out_lines, err_lines, exit_code: -1 };
    proof {
        assert(p.out_lines.deep_view() =~= error_out_lines(err.error@, format));
        assert(p.err_lines.deep_view() =~= error_err_lines(err.error@, format));
    }
    p
}

/// The plan of a lifecycle command, decided by the outcome the server
/// reported: a success line and exit status zero on success, the rendered
/// error and a non-zero exit status otherwise.
pub fn lifecycle_output(res: &Result<(), ServerError>, format: PrintFormat) -> (p: OutputPlan)
    ensures
        res is Ok ==> plan_prints(p, seq![success_text(format)], Seq::empty(), 0),
        res matches Err(e) ==> plan_prints(
            p,
            error_out_lines(e.error@, format),
            error_err_lines(e.error@, format),
            -1i32,
        ),
        res is Err ==> p.exit_code != 0,
{
    match res {
        Ok(_) => success_output(format),
        Err(e) => error_output(e, format),
    }
}

/// The plan of the stats command once a snapshot was obtained: the rendered
/// snapshot on the output stream, nothing on the error stream, exit status
/// zero.
pub fn stats_output(stats: &NamespaceStats, include_top_queries: bool, format: PrintFormat) -> (p:
    OutputPlan)
    ensures
        format is Normal ==> plan_prints(
            p,
            stat_lines(filtered(stats@, include_top_queries)),
            Seq::empty(),
            0,
        ),
        format is Json ==> plan_prints(
            p,
            seq![stats_json_text(filtered(stats@, include_top_queries))],
            Seq::empty(),
            0,
        ),
{
    let out_lines: Vec<String> = match format {
        PrintFormat::Normal => render_stats_lines(stats, include_top_queries),
        PrintFormat::Json => {
            let mut v: Vec<String> = Vec::new();
            v.push(stats_json_string(stats, include_top_queries));
            v
        },
    };
    let p = OutputPlan { out_lines, err_lines: Vec::new(), exit_code: 0 };
    proof {
        assert(p.err_lines.deep_view() =~= Seq::<Seq<char>>::empty());
        if format is Json {
            assert(p.out_lines.deep_view() =~= seq![
                stats_json_text(filtered(stats@, include_top_queries)),
            ]);
        }
    }
    p
}

/// Rendering is deterministic: two normal-format renderings of one snapshot
/// are the same lines in the same order.
pub proof fn lemma_rendering_deterministic(v: StatsView, a: Seq<Seq<char>>, b: Seq<Seq<char>>)
    requires
        a == stat_lines(v),
        b == stat_lines(v),
    ensures
        a == b,
{
}

/// When top queries were not requested, the rendered snapshot has no
/// top-query entries at all, however many the server returned: the normal
/// format shows exactly the five scalar lines, and the JSON format an empty
/// array.
pub proof fn lemma_top_queries_omitted(v: StatsView)
    ensures
        filtered(v, false).top_queries == Seq::<TopQueryView>::empty(),
        stat_lines(filtered(v, false)).len() == 5,
        top_queries_json(filtered(v, false).top_queries) == "[]"@,
{
    assert(filtered(v, false).top_queries =~= Seq::<TopQueryView>::empty());
}

/// The normal-format error line carries the server's message verbatim: it is
/// the text after the fixed prefix.
pub proof fn lemma_error_line_carries_message(msg: Seq<char>)
    ensures
        error_err_lines(msg, PrintFormat::Normal)[0].len() == 7 + msg.len(),
        error_err_lines(msg, PrintFormat::Normal)[0].skip(7) == msg,
{
    reveal_strlit("Error: ");
    assert(("Error: "@ + msg).skip(7) =~= msg);
}

} // verus!
