//! The JSON documents the client emits and sends, specified character by
//! character.
//!
//! The machine-readable output format prints pretty-printed documents with
//! two-space indentation, object keys in lexicographic order, and strings
//! escaped the usual JSON way (`\"`, `\\`, `\b`, `\t`, `\n`, `\f`, `\r`, and
//! `\u00` plus two lower-case hex digits for the remaining control
//! characters). The configuration body sent to the config endpoint is the
//! compact form of the same grammar.

use vstd::prelude::*;
use vstd::string::StrSliceExecFns;
use vstd::string::StringExecFns;

use crate::model::Config;
use crate::model::NamespaceStats;
use crate::model::ServerError;
use crate::model::StatsView;
use crate::model::TopQuery;
use crate::model::TopQueryView;
use crate::model::filtered;
use crate::model::tq_views;
use crate::text::append_hex_digit;
use crate::text::append_i32;
use crate::text::append_u64;
use crate::text::dec_of;
use crate::text::dec_of_int;
use crate::text::hex_digit;

verus! {

/// The escaped form of one character inside a JSON string literal.
pub open spec fn json_escape_char(c: char) -> Seq<char> {
    if c == '"' {
        seq!['\\', '"']
    } else if c == '\\' {
        seq!['\\', '\\']
    } else if c == '\u{8}' {
        seq!['\\', 'b']
    } else if c == '\t' {
        seq!['\\', 't']
    } else if c == '\n' {
        seq!['\\', 'n']
    } else if c == '\u{c}' {
        seq!['\\', 'f']
    } else if c == '\r' {
        seq!['\\', 'r']
    } else if (c as u32) < 32 {
        seq!['\\', 'u', '0', '0', hex_digit(c as u32 as int / 16), hex_digit(c as u32 as int % 16)]
    } else {
        seq![c]
    }
}

/// The escaped form of a whole string, character by character.
pub open spec fn json_escape(s: Seq<char>) -> Seq<char>
    decreases s.len(),
{
    if s.len() == 0 {
        Seq::empty()
    } else {
        json_escape_char(s[0]) + json_escape(s.drop_first())
    }
}

/// A JSON string literal: the escaped contents between double quotes.
pub open spec fn jstr(s: Seq<char>) -> Seq<char> {
    seq!['"'] + json_escape(s) + seq!['"']
}

/// A JSON boolean literal.
pub open spec fn bool_json(b: bool) -> Seq<char> {
    if b {
        "true"@
    } else {
        "false"@
    }
}

/// Escaping distributes over concatenation.
pub proof fn lemma_json_escape_concat(a: Seq<char>, b: Seq<char>)
    ensures
        json_escape(a + b) == json_escape(a) + json_escape(b),
    decreases a.len(),
{
    if a.len() == 0 {
        assert(a + b =~= b);
        assert(json_escape(a) + json_escape(b) =~= json_escape(b));
    } else {
        lemma_json_escape_concat(a.drop_first(), b);
        assert((a + b).drop_first() =~= a.drop_first() + b);
        assert(json_escape(a + b) =~= json_escape(a) + json_escape(b));
    }
}

/// The escaped form of a one-character string is the escaped character.
pub proof fn lemma_json_escape_single(c: char)
    ensures
        json_escape(seq![c]) == json_escape_char(c),
{
    assert(seq![c].drop_first() =~= Seq::<char>::empty());
    assert(json_escape(Seq::<char>::empty()) =~= Seq::<char>::empty());
    assert(json_escape(seq![c]) == json_escape_char(c) + json_escape(seq![c].drop_first()));
    assert(json_escape(seq![c]) =~= json_escape_char(c));
}

/// Appends the escaped contents of a string (no surrounding quotes).
pub fn append_escaped(s: &mut String, q: &str)
    ensures
        final(s)@ == old(s)@ + json_escape(q@),
{
    let n = q.unicode_len();
    let mut i: usize = 0;
    while i < n
        invariant
            n == q@.len(),
            i <= n,
            s@ == old(s)@ + json_escape(q@.take(i as int)),
        decreases n - i,
    {
        let c = q.get_char(i);
        proof {
            lemma_json_escape_concat(q@.take(i as int), seq![c]);
            assert(q@.take(i as int + 1) =~= q@.take(i as int) + seq![c]);
            lemma_json_escape_single(c);
        }
        if c == '"' {
            s.append("\\\"");
            proof {
                reveal_strlit("\\\"");
                assert(s@ =~= old(s)@ + json_escape(q@.take(i as int + 1)));
            }
        } else if c == '\\' {
            s.append("\\\\");
            proof {
                reveal_strlit("\\\\");
                assert(s@ =~= old(s)@ + json_escape(q@.take(i as int + 1)));
            }
        } else if c == '\u{8}' {
            s.append("\\b");
            proof {
                reveal_strlit("\\b");
                assert(s@ =~= old(s)@ + json_escape(q@.take(i as int + 1)));
            }
        } else if c == '\t' {
            s.append("\\t");
            proof {
                reveal_strlit("\\t");
                assert(s@ =~= old(s)@ + json_escape(q@.take(i as int + 1)));
            }
        } else if c == '\n' {
            s.append("\\n");
            proof {
                reveal_strlit("\\n");
                assert(s@ =~= old(s)@ + json_escape(q@.take(i as int + 1)));
            }
        } else if c == '\u{c}' {
            s.append("\\f");
            proof {
                reveal_strlit("\\f");
                assert(s@ =~= old(s)@ + json_escape(q@.take(i as int + 1)));
            }
        } else if c == '\r' {
            s.append("\\r");
            proof {
                reveal_strlit("\\r");
                assert(s@ =~= old(s)@ + json_escape(q@.take(i as int + 1)));
            }
        } else if (c as u32) < 32 {
            s.append("\\u00");
            let v: u32 = c as u32;
            append_hex_digit(s, v / 16);
            append_hex_digit(s, v % 16);
            proof {
                reveal_strlit("\\u00");
                assert(s@ =~= old(s)@ + json_escape(q@.take(i as int + 1)));
            }
        } else {
            let piece = q.substring_char(i, i + 1);
            s.append(piece);
            proof {
                assert(piece@ =~= seq![c]);
                assert(s@ =~= old(s)@ + json_escape(q@.take(i as int + 1)));
            }
        }
        i = i + 1;
    }
    proof {
        assert(q@.take(n as int) =~= q@);
    }
}

/// Appends a JSON string literal.
pub fn append_jstr(s: &mut String, q: &str)
    ensures
        final(s)@ == old(s)@ + jstr(q@),
{
    s.append("\"");
    proof {
        reveal_strlit("\"");
    }
    append_escaped(s, q);
    s.append("\"");
    proof {
        assert(s@ =~= old(s)@ + jstr(q@));
    }
}

/// Appends a JSON boolean literal.
pub fn append_bool(s: &mut String, b: bool)
    ensures
        final(s)@ == old(s)@ + bool_json(b),
{
    if b {
        s.append("true");
    } else {
        s.append("false");
    }
}

/// The pretty-printed document announcing a success without payload.
pub open spec fn success_json_text() -> Seq<char> {
    "{\n  \"success\": true\n}"@
}

/// Builds the pretty-printed success document.
pub fn success_json_string() -> (s: String)
    ensures
        s@ == success_json_text(),
{
    String::from_str("{\n  \"success\": true\n}")
}

/// The pretty-printed document carrying a server error message.
pub open spec fn error_json_text(msg: Seq<char>) -> Seq<char> {
    "{\n  \"error\": "@ + jstr(msg) + "\n}"@
}

/// Builds the pretty-printed document for a server error.
pub fn error_json_string(err: &ServerError) -> (s: String)
    ensures
        s@ == error_json_text(err.error@),
{
    let mut s = String::from_str("{\n  \"error\": ");
    append_jstr(&mut s, err.error.as_str());
    s.append("\n}");
    proof {
        assert(s@ =~= error_json_text(err.error@));
    }
    s
}

/// The pretty-printed object for one top-query entry, as it stands inside the
/// top-query array (keys in lexicographic order).
pub open spec fn top_query_json(q: TopQueryView) -> Seq<char> {
    "{\n        \"query\": "@ + jstr(q.query) + ",\n        \"rows_read\": "@ + dec_of_int(
        q.rows_read,
    ) + ",\n        \"rows_written\": "@ + dec_of_int(q.rows_written) + "\n      }"@
}

/// The array elements from position `j` on: each entry on its own indented
/// line, separated by commas.
pub open spec fn qitems_from(qs: Seq<TopQueryView>, j: int) -> Seq<char>
    decreases qs.len() - j,
{
    if j < 0 || j >= qs.len() {
        Seq::empty()
    } else {
        "\n      "@ + top_query_json(qs[j]) + (if j + 1 < qs.len() {
            ","@ + qitems_from(qs, j + 1)
        } else {
            Seq::empty()
        })
    }
}

/// The pretty-printed top-query array.
pub open spec fn top_queries_json(qs: Seq<TopQueryView>) -> Seq<char> {
    if qs.len() == 0 {
        "[]"@
    } else {
        "["@ + qitems_from(qs, 0) + "\n    ]"@
    }
}

/// The pretty-printed statistics success document: the snapshot under the
/// key `stats`, and `success` set to `true`.
pub open spec fn stats_json_text(v: StatsView) -> Seq<char> {
    "{\n  \"stats\": {\n    \"replication_index\": "@ + (dec_of(v.replication_index) + (
    ",\n    \"rows_read_count\": "@ + (dec_of(v.rows_read_count) + (
    ",\n    \"rows_written_count\": "@ + (dec_of(v.rows_written_count) + (
    ",\n    \"storage_bytes_used\": "@ + (dec_of(v.storage_bytes_used) + (
    ",\n    \"top_queries\": "@ + (top_queries_json(v.top_queries) + (
    ",\n    \"write_requests_delegated\": "@ + (dec_of(v.write_requests_delegated)
        + "\n  },\n  \"success\": true\n}"@)))))))))))
}

/// The stats document equals the flat concatenation of its pieces.
#[verifier::rlimit(100)]
proof fn lemma_stats_json_flat(v: StatsView, s: Seq<char>)
    requires
        s == "{\n  \"stats\": {\n    \"replication_index\": "@ + dec_of(v.replication_index)
            + ",\n    \"rows_read_count\": "@ + dec_of(v.rows_read_count)
            + ",\n    \"rows_written_count\": "@ + dec_of(v.rows_written_count)
            + ",\n    \"storage_bytes_used\": "@ + dec_of(v.storage_bytes_used)
            + ",\n    \"top_queries\": "@ + top_queries_json(v.top_queries)
            + ",\n    \"write_requests_delegated\": "@ + dec_of(v.write_requests_delegated)
            + "\n  },\n  \"success\": true\n}"@,
    ensures
        s == stats_json_text(v),
{
    let l1 = "{\n  \"stats\": {\n    \"replication_index\": "@;
    let d1 = dec_of(v.replication_index);
    let l2 = ",\n    \"rows_read_count\": "@;
    let d2 = dec_of(v.rows_read_count);
    let l3 = ",\n    \"rows_written_count\": "@;
    let d3 = dec_of(v.rows_written_count);
    let l4 = ",\n    \"storage_bytes_used\": "@;
    let d4 = dec_of(v.storage_bytes_used);
    let l5 = ",\n    \"top_queries\": "@;
    let q = top_queries_json(v.top_queries);
    let l6 = ",\n    \"write_requests_delegated\": "@;
    let d5 = dec_of(v.write_requests_delegated);
    let l7 = "\n  },\n  \"success\": true\n}"@;
    let p1 = l1 + d1;
    let p2 = p1 + l2;
    let p3 = p2 + d2;
    let p4 = p3 + l3;
    let p5 = p4 + d3;
    let p6 = p5 + l4;
    let p7 = p6 + d4;
    let p8 = p7 + l5;
    let p9 = p8 + q;
    let p10 = p9 + l6;
    let p11 = p10 + d5;
    assert(s == p11 + l7);
    vstd::seq_lib::lemma_concat_associative(p10, d5, l7);
    vstd::seq_lib::lemma_concat_associative(p9, l6, d5 + l7);
    vstd::seq_lib::lemma_concat_associative(p8, q, l6 + (d5 + l7));
    vstd::seq_lib::lemma_concat_associative(p7, l5, q + (l6 + (d5 + l7)));
    vstd::seq_lib::lemma_concat_associative(p6, d4, l5 + (q + (l6 + (d5 + l7))));
    vstd::seq_lib::lemma_concat_associative(p5, l4, d4 + (l5 + (q + (l6 + (d5 + l7)))));
    vstd::seq_lib::lemma_concat_associative(p4, d3, l4 + (d4 + (l5 + (q + (l6 + (d5 + l7))))));
    vstd::seq_lib::lemma_concat_associative(p3, l3, d3 + (l4 + (d4 + (l5 + (q + (l6 + (d5 + l7)))))));
    vstd::seq_lib::lemma_concat_associative(p2, d2, l3 + (d3 + (l4 + (d4 + (l5 + (q + (l6 + (d5 + l7))))))));
    vstd::seq_lib::lemma_concat_associative(p1, l2, d2 + (l3 + (d3 + (l4 + (d4 + (l5 + (q + (l6 + (d5 + l7)))))))));
    vstd::seq_lib::lemma_concat_associative(l1, d1, l2 + (d2 + (l3 + (d3 + (l4 + (d4 + (l5 + (q + (l6 + (d5 + l7))))))))));
    assert(s == stats_json_text(v));
}

/// Appends the object for one top-query entry.
fn append_top_query(s: &mut String, q: &TopQuery)
    ensures
        final(s)@ == old(s)@ + top_query_json(q@),
{
    s.append("{\n        \"query\": ");
    append_jstr(s, q.query.as_str());
    s.append(",\n        \"rows_read\": ");
    append_i32(s, q.rows_read);
    s.append(",\n        \"rows_written\": ");
    append_i32(s, q.rows_written);
    s.append("\n      }");
    proof {
        assert(s@ =~= old(s)@ + top_query_json(q@));
    }
}

/// Appends the array elements from position `j` on.
fn append_qitems(s: &mut String, qs: &Vec<TopQuery>, j: usize)
    requires
        j <= qs@.len(),
    ensures
        final(s)@ == old(s)@ + qitems_from(tq_views(qs@), j as int),
    decreases qs@.len() - j,
{
    if j < qs.len() {
        s.append("\n      ");
        append_top_query(s, &qs[j]);
        if j + 1 < qs.len() {
            s.append(",");
            proof {
                reveal_strlit(",");
            }
            append_qitems(s, qs, j + 1);
        }
        proof {
            assert(tq_views(qs@)[j as int] == qs@[j as int]@);
            assert(s@ =~= old(s)@ + qitems_from(tq_views(qs@), j as int));
        }
    }
}

/// Builds the pretty-printed statistics success document for the snapshot an
/// invocation renders; the top-query array is empty unless top queries were
/// requested.
#[verifier::rlimit(100)]
pub fn stats_json_string(stats: &NamespaceStats, include_top_queries: bool) -> (s: String)
    ensures
        s@ == stats_json_text(filtered(stats@, include_top_queries)),
{
    let mut s = String::from_str("{\n  \"stats\": {\n    \"replication_index\": ");
    append_u64(&mut s, stats.replication_index);
    s.append(",\n    \"rows_read_count\": ");
    append_u64(&mut s, stats.rows_read_count);
    s.append(",\n    \"rows_written_count\": ");
    append_u64(&mut s, stats.rows_written_count);
    s.append(",\n    \"storage_bytes_used\": ");
    append_u64(&mut s, stats.storage_bytes_used);
    s.append(",\n    \"top_queries\": ");
    if include_top_queries && stats.top_queries.len() > 0 {
        s.append("[");
        append_qitems(&mut s, &stats.top_queries, 0);
        s.append("\n    ]");
        proof {
            assert(filtered(stats@, include_top_queries).top_queries =~= tq_views(
                stats.top_queries@,
            ));
        }
    } else {
        s.append("[]");
        proof {
            assert(filtered(stats@, include_top_queries).top_queries.len() == 0);
        }
    }
    s.append(",\n    \"write_requests_delegated\": ");
    append_u64(&mut s, stats.write_requests_delegated);
    s.append("\n  },\n  \"success\": true\n}");
    proof {
        let f = filtered(stats@, include_top_queries);
        assert(s@ =~= "{\n  \"stats\": {\n    \"replication_index\": "@ + dec_of(
            f.replication_index,
        ) + ",\n    \"rows_read_count\": "@ + dec_of(f.rows_read_count)
            + ",\n    \"rows_written_count\": "@ + dec_of(f.rows_written_count)
            + ",\n    \"storage_bytes_used\": "@ + dec_of(f.storage_bytes_used)
            + ",\n    \"top_queries\": "@ + top_queries_json(f.top_queries)
            + ",\n    \"write_requests_delegated\": "@ + dec_of(f.write_requests_delegated)
            + "\n  },\n  \"success\": true\n}"@);
        lemma_stats_json_flat(f, s@);
    }
    s
}

/// The compact configuration document sent to the config endpoint, fields in
/// declaration order, absent options encoded as `null`.
pub open spec fn config_json_text(c: Config) -> Seq<char> {
    "{\"block_reads\":"@ + bool_json(c.block_reads) + ",\"block_writes\":"@ + bool_json(
        c.block_writes,
    ) + ",\"block_reason\":"@ + (match c.block_reason {
        Some(r) => jstr(r@),
        None => "null"@,
    }) + ",\"max_db_size\":"@ + (match c.max_db_size {
        Some(m) => jstr(m@),
        None => "null"@,
    }) + "}"@
}

/// Builds the compact configuration document.
pub fn config_json_string(c: &Config) -> (s: String)
    ensures
        s@ == config_json_text(*c),
{
    let mut s = String::from_str("{\"block_reads\":");
    append_bool(&mut s, c.block_reads);
    s.append(",\"block_writes\":");
    append_bool(&mut s, c.block_writes);
    s.append(",\"block_reason\":");
    match &c.block_reason {
        Some(r) => append_jstr(&mut s, r.as_str()),
        None => s.append("null"),
    }
    s.append(",\"max_db_size\":");
    match &c.max_db_size {
        Some(m) => append_jstr(&mut s, m.as_str()),
        None => s.append("null"),
    }
    s.append("}");
    proof {
        assert(s@ =~= config_json_text(*c));
    }
    s
}

} // verus!
