//! A parser for the documents the JSON renderer emits, and the proof that
//! parsing them yields back exactly the value that was rendered.
//!
//! The parser follows the renderer's grammar: the fixed framing is consumed
//! literally, while the variable parts (numbers, string literals, the
//! top-query array) are parsed from the characters. The round-trip lemmas at
//! the end state that the machine-readable output is faithful: whoever parses
//! the emitted document recovers `success: true` and, for the stats document,
//! the rendered snapshot itself.

use vstd::prelude::*;

use crate::json::json_escape;
use crate::json::json_escape_char;
use crate::json::jstr;
use crate::json::qitems_from;
use crate::json::stats_json_text;
use crate::json::success_json_text;
use crate::json::top_queries_json;
use crate::json::top_query_json;
use crate::model::StatsView;
use crate::model::TopQueryView;
use crate::text::dec_digit;
use crate::text::dec_of;
use crate::text::dec_of_int;
use crate::text::hex_digit;

verus! {

/// A decimal digit character.
pub open spec fn is_digit(c: char) -> bool {
    48 <= (c as u32) && (c as u32) <= 57
}

/// The value of a decimal digit character.
pub open spec fn digit_val(c: char) -> int {
    (c as u32) - 48
}

/// A lower-case hexadecimal digit character.
pub open spec fn is_hex_lower(c: char) -> bool {
    is_digit(c) || (97 <= (c as u32) && (c as u32) <= 102)
}

/// The value of a lower-case hexadecimal digit character.
pub open spec fn hex_val(c: char) -> int {
    if is_digit(c) {
        digit_val(c)
    } else {
        (c as u32) - 87
    }
}

/// The number of leading decimal digits.
pub open spec fn digits_len(t: Seq<char>) -> nat
    decreases t.len(),
{
    if t.len() > 0 && is_digit(t[0]) {
        (1 + digits_len(t.drop_first())) as nat
    } else {
        0
    }
}

/// The number denoted by a sequence of decimal digits.
pub open spec fn dec_val(d: Seq<char>) -> nat
    decreases d.len(),
{
    if d.len() == 0 {
        0
    } else {
        (dec_val(d.drop_last()) * 10 + digit_val(d.last())) as nat
    }
}

/// Parses a natural number: the maximal run of leading digits, of which there
/// must be at least one.
pub open spec fn parse_nat(t: Seq<char>) -> Option<(nat, Seq<char>)> {
    let k = digits_len(t);
    if k == 0 {
        None
    } else {
        Some((dec_val(t.take(k as int)), t.skip(k as int)))
    }
}

/// Parses an integer: an optional minus sign before the digits.
pub open spec fn parse_int(t: Seq<char>) -> Option<(int, Seq<char>)> {
    if t.len() > 0 && t[0] == '-' {
        match parse_nat(t.drop_first()) {
            Some((n, r)) => Some((-(n as int), r)),
            None => None,
        }
    } else {
        match parse_nat(t) {
            Some((n, r)) => Some((n as int, r)),
            None => None,
        }
    }
}

/// Consumes an expected literal prefix.
pub open spec fn expect(t: Seq<char>, lit: Seq<char>) -> Option<Seq<char>> {
    if lit.len() <= t.len() && t.take(lit.len() as int) == lit {
        Some(t.skip(lit.len() as int))
    } else {
        None
    }
}

/// Consuming a literal off a text that starts with it leaves the remainder.
pub proof fn lemma_expect(lit: Seq<char>, rest: Seq<char>)
    ensures
        expect(lit + rest, lit) == Some(rest),
{
    let t = lit + rest;
    assert(t.take(lit.len() as int) =~= lit);
    assert(t.skip(lit.len() as int) =~= rest);
}

/// Decimal notation consists of digits, at least one.
pub proof fn lemma_dec_of_digits(n: nat)
    ensures
        dec_of(n).len() >= 1,
        forall|i: int| 0 <= i < dec_of(n).len() ==> is_digit(#[trigger] dec_of(n)[i]),
    decreases n,
{
    if n < 10 {
        assert(is_digit(dec_digit(n as int)));
    } else {
        lemma_dec_of_digits(n / 10);
        assert(is_digit(dec_digit((n % 10) as int)));
        assert(forall|i: int|
            0 <= i < dec_of(n / 10).len() ==> #[trigger] dec_of(n)[i] == dec_of(n / 10)[i]);
    }
}

/// The digit run of a digit text followed by a non-digit is the digit text.
pub proof fn lemma_digits_len_concat(d: Seq<char>, rest: Seq<char>)
    requires
        forall|i: int| 0 <= i < d.len() ==> is_digit(#[trigger] d[i]),
        rest.len() == 0 || !is_digit(rest[0]),
    ensures
        digits_len(d + rest) == d.len(),
    decreases d.len(),
{
    if d.len() == 0 {
        assert(d + rest =~= rest);
    } else {
        assert((d + rest)[0] == d[0]);
        assert((d + rest).drop_first() =~= d.drop_first() + rest);
        lemma_digits_len_concat(d.drop_first(), rest);
    }
}

/// Reading the decimal notation of a number back gives the number.
pub proof fn lemma_dec_val_of(n: nat)
    ensures
        dec_val(dec_of(n)) == n,
    decreases n,
{
    if n < 10 {
        let d = dec_of(n);
        assert(d == seq![dec_digit(n as int)]);
        assert(d.drop_last() =~= Seq::<char>::empty());
        assert(dec_val(Seq::<char>::empty()) == 0);
        assert(d.last() == dec_digit(n as int));
        assert(digit_val(dec_digit(n as int)) == n);
        assert(dec_val(d) == dec_val(d.drop_last()) * 10 + digit_val(d.last()));
    } else {
        lemma_dec_val_of(n / 10);
        let d = dec_of(n / 10);
        let full = dec_of(n);
        assert(full == d.push(dec_digit((n % 10) as int)));
        assert(full.drop_last() =~= d);
        assert(full.last() == dec_digit((n % 10) as int));
        assert(digit_val(dec_digit((n % 10) as int)) == n % 10);
    }
}

/// Parsing inverts rendering for natural numbers, whatever non-digit text
/// follows.
pub proof fn lemma_parse_nat(n: nat, rest: Seq<char>)
    requires
        rest.len() == 0 || !is_digit(rest[0]),
    ensures
        parse_nat(dec_of(n) + rest) == Some((n, rest)),
{
    lemma_dec_of_digits(n);
    lemma_digits_len_concat(dec_of(n), rest);
    let t = dec_of(n) + rest;
    let k = dec_of(n).len() as int;
    assert(t.take(k) =~= dec_of(n));
    assert(t.skip(k) =~= rest);
    lemma_dec_val_of(n);
}

/// Parsing inverts rendering for integers, whatever non-digit text follows.
pub proof fn lemma_parse_int(n: int, rest: Seq<char>)
    requires
        rest.len() == 0 || !is_digit(rest[0]),
    ensures
        parse_int(dec_of_int(n) + rest) == Some((n, rest)),
{
    let t = dec_of_int(n) + rest;
    if n < 0 {
        assert(t[0] == '-');
        assert(!is_digit('-'));
        assert(t.drop_first() =~= dec_of((-n) as nat) + rest);
        lemma_parse_nat((-n) as nat, rest);
    } else {
        lemma_dec_of_digits(n as nat);
        assert(t[0] == dec_of(n as nat)[0]);
        assert(is_digit(t[0]));
        assert(t[0] != '-');
        lemma_parse_nat(n as nat, rest);
    }
}

/// The character named by a short escape code.
pub open spec fn unescape_code(e: char) -> Option<char> {
    if e == '"' {
        Some('"')
    } else if e == '\\' {
        Some('\\')
    } else if e == 'b' {
        Some('\u{8}')
    } else if e == 't' {
        Some('\t')
    } else if e == 'n' {
        Some('\n')
    } else if e == 'f' {
        Some('\u{c}')
    } else if e == 'r' {
        Some('\r')
    } else {
        None
    }
}

/// Parses the body of a JSON string literal up to and including its closing
/// quote, undoing the escapes.
pub open spec fn parse_jstring_body(t: Seq<char>) -> Option<(Seq<char>, Seq<char>)>
    decreases t.len(),
{
    if t.len() == 0 {
        None
    } else if t[0] == '"' {
        Some((Seq::empty(), t.drop_first()))
    } else if t[0] == '\\' {
        if t.len() >= 6 && t[1] == 'u' && t[2] == '0' && t[3] == '0' && is_hex_lower(t[4])
            && is_hex_lower(t[5]) {
            let c = (16 * hex_val(t[4]) + hex_val(t[5])) as u32 as char;
            match parse_jstring_body(t.skip(6)) {
                Some((s, r)) => Some((seq![c] + s, r)),
                None => None,
            }
        } else if t.len() >= 2 {
            match unescape_code(t[1]) {
                Some(c) => match parse_jstring_body(t.skip(2)) {
                    Some((s, r)) => Some((seq![c] + s, r)),
                    None => None,
                },
                None => None,
            }
        } else {
            None
        }
    } else {
        match parse_jstring_body(t.drop_first()) {
            Some((s, r)) => Some((seq![t[0]] + s, r)),
            None => None,
        }
    }
}

/// Parses a whole JSON string literal, opening quote first.
pub open spec fn parse_jstring(t: Seq<char>) -> Option<(Seq<char>, Seq<char>)> {
    if t.len() > 0 && t[0] == '"' {
        parse_jstring_body(t.drop_first())
    } else {
        None
    }
}

/// A hexadecimal digit reads back as its value.
pub proof fn lemma_hex_digit_val(d: int)
    requires
        0 <= d < 16,
    ensures
        is_hex_lower(hex_digit(d)),
        hex_val(hex_digit(d)) == d,
{
}

/// Parsing a string body inverts escaping, for every string and every
/// continuation.
pub proof fn lemma_parse_jstring_body(s: Seq<char>, rest: Seq<char>)
    ensures
        parse_jstring_body(json_escape(s) + seq!['"'] + rest) == Some((s, rest)),
    decreases s.len(),
{
    let t = json_escape(s) + seq!['"'] + rest;
    if s.len() == 0 {
        assert(json_escape(s) =~= Seq::<char>::empty());
        assert(t =~= seq!['"'] + rest);
        assert(t[0] == '"');
        assert(t.drop_first() =~= rest);
    } else {
        let c = s[0];
        let e = json_escape_char(c);
        let t2 = json_escape(s.drop_first()) + seq!['"'] + rest;
        assert(json_escape(s) == e + json_escape(s.drop_first()));
        assert(t =~= e + t2);
        lemma_parse_jstring_body(s.drop_first(), rest);
        assert(seq![c] + s.drop_first() =~= s);
        if c == '"' || c == '\\' || c == '\u{8}' || c == '\t' || c == '\n' || c == '\u{c}' || c
            == '\r' {
            assert(e.len() == 2 && e[0] == '\\');
            assert(t[0] == '\\' && t[1] == e[1]);
            assert(t[1] != 'u');
            assert(unescape_code(t[1]) == Some(c));
            assert(t.skip(2) =~= t2);
        } else if (c as u32) < 32 {
            let v = c as u32 as int;
            assert(e == seq!['\\', 'u', '0', '0', hex_digit(v / 16), hex_digit(v % 16)]);
            assert(t.len() >= 6);
            assert(t[0] == '\\' && t[1] == 'u' && t[2] == '0' && t[3] == '0');
            assert(t[4] == hex_digit(v / 16) && t[5] == hex_digit(v % 16));
            lemma_hex_digit_val(v / 16);
            lemma_hex_digit_val(v % 16);
            assert(16 * hex_val(t[4]) + hex_val(t[5]) == v);
            vstd::utf8::char_u32_cast(c, c as u32);
            assert((16 * hex_val(t[4]) + hex_val(t[5])) as u32 as char == c);
            assert(t.skip(6) =~= t2);
        } else {
            assert(e == seq![c]);
            assert(t[0] == c);
            assert(t[0] != '"' && t[0] != '\\');
            assert(t.drop_first() =~= t2);
        }
    }
}

/// Parsing inverts rendering for JSON string literals.
pub proof fn lemma_parse_jstring(s: Seq<char>, rest: Seq<char>)
    ensures
        parse_jstring(jstr(s) + rest) == Some((s, rest)),
{
    let t = jstr(s) + rest;
    assert(t[0] == '"');
    assert(t.drop_first() =~= json_escape(s) + seq!['"'] + rest);
    lemma_parse_jstring_body(s, rest);
}

/// Parses one top-query object of the pretty stats document.
pub open spec fn parse_top_query(t: Seq<char>) -> Option<(TopQueryView, Seq<char>)> {
    match expect(t, "{\n        \"query\": "@) {
        Some(t1) => match parse_jstring(t1) {
            Some((q, t2)) => match expect(t2, ",\n        \"rows_read\": "@) {
                Some(t3) => match parse_int(t3) {
                    Some((rr, t4)) => match expect(t4, ",\n        \"rows_written\": "@) {
                        Some(t5) => match parse_int(t5) {
                            Some((rw, t6)) => match expect(t6, "\n      }"@) {
                                Some(t7) => Some(
                                    (TopQueryView { rows_written: rw, rows_read: rr, query: q }, t7),
                                ),
                                None => None,
                            },
                            None => None,
                        },
                        None => None,
                    },
                    None => None,
                },
                None => None,
            },
            None => None,
        },
        None => None,
    }
}

/// Parses the elements of a non-empty top-query array, one object per
/// element, separated by commas; stops before the closing line.
pub open spec fn parse_qitems(t: Seq<char>) -> Option<(Seq<TopQueryView>, Seq<char>)>
    decreases t.len(),
{
    match expect(t, "\n      "@) {
        Some(t1) => match parse_top_query(t1) {
            Some((q, t2)) => if t2.len() > 0 && t2[0] == ',' {
                if t2.len() < t.len() {
                    match parse_qitems(t2.drop_first()) {
                        Some((qs, r)) => Some((seq![q] + qs, r)),
                        None => None,
                    }
                } else {
                    None
                }
            } else {
                Some((seq![q], t2))
            },
            None => None,
        },
        None => None,
    }
}

/// Parses a whole top-query array.
pub open spec fn parse_top_queries(t: Seq<char>) -> Option<(Seq<TopQueryView>, Seq<char>)> {
    match expect(t, "[]"@) {
        Some(r) => Some((Seq::empty(), r)),
        None => match expect(t, "["@) {
            Some(t1) => match parse_qitems(t1) {
                Some((qs, t2)) => match expect(t2, "\n    ]"@) {
                    Some(r) => Some((qs, r)),
                    None => None,
                },
                None => None,
            },
            None => None,
        },
    }
}

/// Parses the pretty stats success document whole; anything after the final
/// brace makes the parse fail.
pub open spec fn parse_stats_json(t: Seq<char>) -> Option<StatsView> {
    match expect(t, "{\n  \"stats\": {\n    \"replication_index\": "@) {
        Some(t1) => match parse_nat(t1) {
            Some((ri, t2)) => match expect(t2, ",\n    \"rows_read_count\": "@) {
                Some(t3) => match parse_nat(t3) {
                    Some((rrc, t4)) => match expect(t4, ",\n    \"rows_written_count\": "@) {
                        Some(t5) => match parse_nat(t5) {
                            Some((rwc, t6)) => match expect(t6, ",\n    \"storage_bytes_used\": "@) {
                                Some(t7) => match parse_nat(t7) {
                                    Some((sb, t8)) => match expect(t8, ",\n    \"top_queries\": "@) {
                                        Some(t9) => match parse_top_queries(t9) {
                                            Some((qs, t10)) => match expect(
                                                t10,
                                                ",\n    \"write_requests_delegated\": "@,
                                            ) {
                                                Some(t11) => match parse_nat(t11) {
                                                    Some((wr, t12)) => match expect(
                                                        t12,
                                                        "\n  },\n  \"success\": true\n}"@,
                                                    ) {
                                                        Some(r) => if r.len() == 0 {
                                                            Some(
                                                                StatsView {
                                                                    rows_read_count: rrc,
                                                                    rows_written_count: rwc,
                                                                    storage_bytes_used: sb,
                                                                    write_requests_delegated: wr,
                                                                    replication_index: ri,
                                                                    top_queries: qs,
                                                                },
                                                            )
                                                        } else {
                                                            None
                                                        },
                                                        None => None,
                                                    },
                                                    None => None,
                                                },
                                                None => None,
                                            },
                                            None => None,
                                        },
                                        None => None,
                                    },
                                    None => None,
                                },
                                None => None,
                            },
                            None => None,
                        },
                        None => None,
                    },
                    None => None,
                },
                None => None,
            },
            None => None,
        },
        None => None,
    }
}

/// Parses the pretty no-payload success document whole.
pub open spec fn parse_success_json(t: Seq<char>) -> Option<bool> {
    match expect(t, "{\n  \"success\": "@) {
        Some(t1) => match expect(t1, "true"@) {
            Some(t2) => match expect(t2, "\n}"@) {
                Some(r) => if r.len() == 0 {
                    Some(true)
                } else {
                    None
                },
                None => None,
            },
            None => match expect(t1, "false"@) {
                Some(t2) => match expect(t2, "\n}"@) {
                    Some(r) => if r.len() == 0 {
                        Some(false)
                    } else {
                        None
                    },
                    None => None,
                },
                None => None,
            },
        },
        None => None,
    }
}

/// Parsing inverts rendering for one top-query object, whatever follows it.
pub proof fn lemma_parse_top_query(q: TopQueryView, rest: Seq<char>)
    ensures
        parse_top_query(top_query_json(q) + rest) == Some((q, rest)),
{
    let t = top_query_json(q) + rest;
    let lit1 = "{\n        \"query\": "@;
    let lit2 = ",\n        \"rows_read\": "@;
    let lit3 = ",\n        \"rows_written\": "@;
    let lit4 = "\n      }"@;
    let s1 = jstr(q.query) + (lit2 + (dec_of_int(q.rows_read) + (lit3 + (dec_of_int(q.rows_written)
        + (lit4 + rest)))));
    assert(t =~= lit1 + s1);
    lemma_expect(lit1, s1);
    let s2 = lit2 + (dec_of_int(q.rows_read) + (lit3 + (dec_of_int(q.rows_written) + (lit4
        + rest))));
    lemma_parse_jstring(q.query, s2);
    let s3 = dec_of_int(q.rows_read) + (lit3 + (dec_of_int(q.rows_written) + (lit4 + rest)));
    lemma_expect(lit2, s3);
    reveal_strlit(",\n        \"rows_written\": ");
    assert(!is_digit((lit3 + (dec_of_int(q.rows_written) + (lit4 + rest)))[0]));
    lemma_parse_int(q.rows_read, lit3 + (dec_of_int(q.rows_written) + (lit4 + rest)));
    let s4 = dec_of_int(q.rows_written) + (lit4 + rest);
    lemma_expect(lit3, s4);
    reveal_strlit("\n      }");
    assert(!is_digit((lit4 + rest)[0]));
    lemma_parse_int(q.rows_written, lit4 + rest);
    lemma_expect(lit4, rest);
}

/// Parsing inverts rendering for the elements of a non-empty top-query array,
/// whatever non-comma text follows them.
#[verifier::rlimit(100)]
pub proof fn lemma_parse_qitems(qs: Seq<TopQueryView>, j: int, rest: Seq<char>)
    requires
        0 <= j < qs.len(),
        rest.len() > 0,
        rest[0] != ',',
    ensures
        parse_qitems(qitems_from(qs, j) + rest) == Some((qs.skip(j), rest)),
    decreases qs.len() - j,
{
    let t = qitems_from(qs, j) + rest;
    let sep = "\n      "@;
    if j + 1 < qs.len() {
        let tail = ","@ + (qitems_from(qs, j + 1) + rest);
        assert(t =~= sep + (top_query_json(qs[j]) + tail));
        lemma_expect(sep, top_query_json(qs[j]) + tail);
        lemma_parse_top_query(qs[j], tail);
        reveal_strlit(",");
        assert(tail[0] == ',');
        assert(tail.len() > 0);
        reveal_strlit("\n      ");
        assert(tail.len() < t.len());
        assert(tail.drop_first() =~= qitems_from(qs, j + 1) + rest);
        lemma_parse_qitems(qs, j + 1, rest);
        assert(seq![qs[j]] + qs.skip(j + 1) =~= qs.skip(j));
    } else {
        assert(t =~= sep + (top_query_json(qs[j]) + rest));
        lemma_expect(sep, top_query_json(qs[j]) + rest);
        lemma_parse_top_query(qs[j], rest);
        assert(seq![qs[j]] =~= qs.skip(j));
    }
}

/// Parsing inverts rendering for the top-query array, whatever follows it.
pub proof fn lemma_parse_top_queries(qs: Seq<TopQueryView>, rest: Seq<char>)
    ensures
        parse_top_queries(top_queries_json(qs) + rest) == Some((qs, rest)),
{
    let t = top_queries_json(qs) + rest;
    reveal_strlit("[]");
    reveal_strlit("[");
    reveal_strlit("\n    ]");
    reveal_strlit("\n      ");
    if qs.len() == 0 {
        assert(t =~= "[]"@ + rest);
        lemma_expect("[]"@, rest);
        assert(qs =~= Seq::<TopQueryView>::empty());
    } else {
        let close = "\n    ]"@ + rest;
        assert(t =~= "["@ + (qitems_from(qs, 0) + close));
        assert(qitems_from(qs, 0)[0] == '\n');
        assert(t[1] == '\n');
        assert(expect(t, "[]"@) is None) by {
            if expect(t, "[]"@) is Some {
                assert(t.take(2)[1] == ']');
            }
        }
        lemma_expect("["@, qitems_from(qs, 0) + close);
        assert(close[0] == '\n');
        assert(close.len() > 0);
        assert(close[0] != ',');
        lemma_parse_qitems(qs, 0, close);
        assert(qs.skip(0) =~= qs);
        lemma_expect("\n    ]"@, rest);
    }
}

/// Parsing the emitted no-payload success document yields success.
pub proof fn lemma_success_round_trip()
    ensures
        parse_success_json(success_json_text()) == Some(true),
{
    reveal_strlit("{\n  \"success\": true\n}");
    reveal_strlit("{\n  \"success\": ");
    reveal_strlit("true");
    reveal_strlit("\n}");
    let t = success_json_text();
    assert(t =~= "{\n  \"success\": "@ + ("true"@ + ("\n}"@ + Seq::<char>::empty())));
    lemma_expect("{\n  \"success\": "@, "true"@ + ("\n}"@ + Seq::<char>::empty()));
    lemma_expect("true"@, "\n}"@ + Seq::<char>::empty());
    lemma_expect("\n}"@, Seq::<char>::empty());
}

/// Parsing the emitted stats success document yields back exactly the
/// snapshot that was rendered.
pub proof fn lemma_stats_round_trip(v: StatsView)
    ensures
        parse_stats_json(stats_json_text(v)) == Some(v),
{
    let lit1 = "{\n  \"stats\": {\n    \"replication_index\": "@;
    let lit2 = ",\n    \"rows_read_count\": "@;
    let lit3 = ",\n    \"rows_written_count\": "@;
    let lit4 = ",\n    \"storage_bytes_used\": "@;
    let lit5 = ",\n    \"top_queries\": "@;
    let lit6 = ",\n    \"write_requests_delegated\": "@;
    let lit7 = "\n  },\n  \"success\": true\n}"@;
    reveal_strlit(",\n    \"rows_read_count\": ");
    reveal_strlit(",\n    \"rows_written_count\": ");
    reveal_strlit(",\n    \"storage_bytes_used\": ");
    reveal_strlit(",\n    \"top_queries\": ");
    reveal_strlit(",\n    \"write_requests_delegated\": ");
    reveal_strlit("\n  },\n  \"success\": true\n}");
    let x6 = dec_of(v.write_requests_delegated) + lit7;
    let tail6 = lit6 + x6;
    let x5 = top_queries_json(v.top_queries) + tail6;
    let tail5 = lit5 + x5;
    let x4 = dec_of(v.storage_bytes_used) + tail5;
    let tail4 = lit4 + x4;
    let x3 = dec_of(v.rows_written_count) + tail4;
    let tail3 = lit3 + x3;
    let x2 = dec_of(v.rows_read_count) + tail3;
    let tail2 = lit2 + x2;
    let x1 = dec_of(v.replication_index) + tail2;
    let t = stats_json_text(v);
    assert(t == lit1 + x1);
    lemma_expect(lit1, x1);
    assert(!is_digit(tail2[0]));
    lemma_parse_nat(v.replication_index, tail2);
    lemma_expect(lit2, x2);
    assert(!is_digit(tail3[0]));
    lemma_parse_nat(v.rows_read_count, tail3);
    lemma_expect(lit3, x3);
    assert(!is_digit(tail4[0]));
    lemma_parse_nat(v.rows_written_count, tail4);
    lemma_expect(lit4, x4);
    assert(!is_digit(tail5[0]));
    lemma_parse_nat(v.storage_bytes_used, tail5);
    lemma_expect(lit5, x5);
    lemma_parse_top_queries(v.top_queries, tail6);
    lemma_expect(lit6, x6);
    assert(!is_digit(lit7[0]));
    lemma_parse_nat(v.write_requests_delegated, lit7);
    assert(lit7 =~= lit7 + Seq::<char>::empty());
    lemma_expect(lit7, Seq::<char>::empty());
    let w = StatsView {
        rows_read_count: v.rows_read_count,
        rows_written_count: v.rows_written_count,
        storage_bytes_used: v.storage_bytes_used,
        write_requests_delegated: v.write_requests_delegated,
        replication_index: v.replication_index,
        top_queries: v.top_queries,
    };
    assert(parse_stats_json(t) == Some(w));
    assert(w =~= v);
}

} // verus!
