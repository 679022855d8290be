//! Decimal rendering of the integer fields that appear in the client's
//! output, specified as sequences of characters.

use vstd::prelude::*;
use vstd::string::StringExecFns;

verus! {

/// The character for one decimal digit value.
pub open spec fn dec_digit(d: int) -> char {
    if d == 0 {
        '0'
    } else if d == 1 {
        '1'
    } else if d == 2 {
        '2'
    } else if d == 3 {
        '3'
    } else if d == 4 {
        '4'
    } else if d == 5 {
        '5'
    } else if d == 6 {
        '6'
    } else if d == 7 {
        '7'
    } else if d == 8 {
        '8'
    } else {
        '9'
    }
}

/// The character for one hexadecimal digit value, lower case.
pub open spec fn hex_digit(d: int) -> char {
    if d < 10 {
        dec_digit(d)
    } else if d == 10 {
        'a'
    } else if d == 11 {
        'b'
    } else if d == 12 {
        'c'
    } else if d == 13 {
        'd'
    } else if d == 14 {
        'e'
    } else {
        'f'
    }
}

/// The decimal notation of a natural number, most significant digit first,
/// without leading zeros (the number zero is the single digit `0`).
pub open spec fn dec_of(n: nat) -> Seq<char>
    decreases n,
{
    if n < 10 {
        seq![dec_digit(n as int)]
    } else {
        dec_of(n / 10).push(dec_digit((n % 10) as int))
    }
}

/// The decimal notation of an integer: a minus sign before the magnitude for
/// negative numbers, the plain magnitude otherwise.
pub open spec fn dec_of_int(n: int) -> Seq<char> {
    if n < 0 {
        seq!['-'] + dec_of((-n) as nat)
    } else {
        dec_of(n as nat)
    }
}

/// Appends the character of one decimal digit.
fn append_digit(s: &mut String, d: u64)
    requires
        d < 10,
    ensures
        final(s)@ == old(s)@ + seq![dec_digit(d as int)],
{
    match d {
        0 => {
            s.append("0");
            proof {
                reveal_strlit("0");
                assert(s@ =~= old(s)@ + seq![dec_digit(d as int)]);
            }
        },
        1 => {
            s.append("1");
            proof {
                reveal_strlit("1");
                assert(s@ =~= old(s)@ + seq![dec_digit(d as int)]);
            }
        },
        2 => {
            s.append("2");
            proof {
                reveal_strlit("2");
                assert(s@ =~= old(s)@ + seq![dec_digit(d as int)]);
            }
        },
        3 => {
            s.append("3");
            proof {
                reveal_strlit("3");
                assert(s@ =~= old(s)@ + seq![dec_digit(d as int)]);
            }
        },
        4 => {
            s.append("4");
            proof {
                reveal_strlit("4");
                assert(s@ =~= old(s)@ + seq![dec_digit(d as int)]);
            }
        },
        5 => {
            s.append("5");
            proof {
                reveal_strlit("5");
                assert(s@ =~= old(s)@ + seq![dec_digit(d as int)]);
            }
        },
        6 => {
            s.append("6");
            proof {
                reveal_strlit("6");
                assert(s@ =~= old(s)@ + seq![dec_digit(d as int)]);
            }
        },
        7 => {
            s.append("7");
            proof {
                reveal_strlit("7");
                assert(s@ =~= old(s)@ + seq![dec_digit(d as int)]);
            }
        },
        8 => {
            s.append("8");
            proof {
                reveal_strlit("8");
                assert(s@ =~= old(s)@ + seq![dec_digit(d as int)]);
            }
        },
        _ => {
            s.append("9");
            proof {
                reveal_strlit("9");
                assert(s@ =~= old(s)@ + seq![dec_digit(d as int)]);
            }
        },
    }
}

/// Appends the character of one hexadecimal digit, lower case.
pub fn append_hex_digit(s: &mut String, d: u32)
    requires
        d < 16,
    ensures
        final(s)@ == old(s)@ + seq![hex_digit(d as int)],
{
    if d < 10 {
        append_digit(s, d as u64);
    } else {
        match d {
            10 => {
                s.append("a");
                proof {
                    reveal_strlit("a");
                    assert(s@ =~= old(s)@ + seq![hex_digit(d as int)]);
                }
            },
            11 => {
                s.append("b");
                proof {
                    reveal_strlit("b");
                    assert(s@ =~= old(s)@ + seq![hex_digit(d as int)]);
                }
            },
            12 => {
                s.append("c");
                proof {
                    reveal_strlit("c");
                    assert(s@ =~= old(s)@ + seq![hex_digit(d as int)]);
                }
            },
            13 => {
                s.append("d");
                proof {
                    reveal_strlit("d");
                    assert(s@ =~= old(s)@ + seq![hex_digit(d as int)]);
                }
            },
            14 => {
                s.append("e");
                proof {
                    reveal_strlit("e");
                    assert(s@ =~= old(s)@ + seq![hex_digit(d as int)]);
                }
            },
            _ => {
                s.append("f");
                proof {
                    reveal_strlit("f");
                    assert(s@ =~= old(s)@ + seq![hex_digit(d as int)]);
                }
            },
        }
    }
}

/// Appends the decimal notation of an unsigned number.
pub fn append_u64(s: &mut String, n: u64)
    ensures
        final(s)@ == old(s)@ + dec_of(n as nat),
    decreases n,
{
    if n >= 10 {
        append_u64(s, n / 10);
        append_digit(s, n % 10);
        proof {
            assert(s@ =~= old(s)@ + dec_of(n as nat));
        }
    } else {
        append_digit(s, n);
    }
}

/// Appends the decimal notation of a signed number.
pub fn append_i32(s: &mut String, n: i32)
    ensures
        final(s)@ == old(s)@ + dec_of_int(n as int),
{
    if n < 0 {
        s.append("-");
        let m: u64 = (-(n as i64)) as u64;
        append_u64(s, m);
        proof {
            reveal_strlit("-");
            assert(s@ =~= old(s)@ + dec_of_int(n as int));
        }
    } else {
        append_u64(s, n as u64);
    }
}

/// The decimal notation of an unsigned number, as an owned string.
pub fn u64_to_string(n: u64) -> (s: String)
    ensures
        s@ == dec_of(n as nat),
{
    let mut s = String::new();
    append_u64(&mut s, n);
    proof {
        assert(s@ =~= dec_of(n as nat));
    }
    s
}

} // verus!
