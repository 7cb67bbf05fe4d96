//! Decimal numbers in text: reading them as std's `from_str` for unsigned
//! integers does, and writing them.
use vstd::prelude::*;
use vstd::string::{StrSliceExecFns, StringExecFns};

verus! {

/// `c` is an ASCII decimal digit.
pub open spec fn is_digit(c: char) -> bool {
    '0' <= c && c <= '9'
}

/// Every character of `s` is an ASCII decimal digit.
pub open spec fn all_digits(s: Seq<char>) -> bool {
    forall|i: int| 0 <= i < s.len() ==> is_digit(#[trigger] s[i])
}

/// The value of a digit character.
pub open spec fn digit_value(c: char) -> int {
    c as int - '0' as int
}

/// The value of a string of decimal digits.
pub open spec fn decimal_value(s: Seq<char>) -> int
    decreases s.len(),
{
    if s.len() == 0 {
        0
    } else {
        decimal_value(s.drop_last()) * 10 + digit_value(s.last())
    }
}

/// The digits of a number as std's `from_str` reads it: an optional
/// leading `+` is dropped.
pub open spec fn unsigned_digits(s: Seq<char>) -> Seq<char> {
    if s.len() > 0 && s[0] == '+' {
        s.drop_first()
    } else {
        s
    }
}

/// What std's `from_str` for an unsigned integer type whose largest value
/// is `max` makes of `s`: one or more ASCII digits, after an optional `+`,
/// whose value does not exceed `max`.
pub open spec fn parse_unsigned(s: Seq<char>, max: int) -> Option<int> {
    let d = unsigned_digits(s);
    if d.len() > 0 && all_digits(d) && decimal_value(d) <= max {
        Some(decimal_value(d))
    } else {
        None
    }
}

/// The character of a digit value.
pub open spec fn digit_char(d: int) -> char {
    ('0' as int + d) as char
}

/// The shortest decimal text of `n`.
pub open spec fn decimal_text(n: nat) -> Seq<char>
    decreases n,
{
    if n < 10 {
        seq![digit_char(n as int)]
    } else {
        decimal_text(n / 10).push(digit_char((n % 10) as int))
    }
}

proof fn lemma_decimal_value_nonneg(s: Seq<char>)
    requires
        all_digits(s),
    ensures
        decimal_value(s) >= 0,
    decreases s.len(),
{
    if s.len() > 0 {
        assert(is_digit(s[s.len() - 1]));
        lemma_decimal_value_nonneg(s.drop_last());
    }
}

/// A longer string of digits is worth at least as much as its prefix.
proof fn lemma_decimal_value_prefix(s: Seq<char>, k: int)
    requires
        all_digits(s),
        0 <= k <= s.len(),
    ensures
        decimal_value(s.take(k)) <= decimal_value(s),
    decreases s.len() - k,
{
    if k < s.len() {
        lemma_decimal_value_prefix(s, k + 1);
        assert(s.take(k + 1).drop_last() == s.take(k));
        assert(is_digit(s.take(k + 1).last()));
        lemma_decimal_value_nonneg(s.take(k));
    } else {
        assert(s.take(k) == s);
    }
}

/// Reads `s` as std's `from_str` reads an unsigned integer no larger than `max`.
pub fn parse_decimal(s: &str, max: u64) -> (r: Option<u64>)
    ensures
        match r {
            Some(v) => parse_unsigned(s@, max as int) == Some(v as int),
            None => parse_unsigned(s@, max as int) is None,
        },
{
    let n = s.unicode_len();
    let ghost d = unsigned_digits(s@);
    let mut i: usize = 0;
    if n > 0 && s.get_char(0) == '+' {
        i = 1;
    }
    let start = i;
    assert(d == s@.skip(start as int));
    if start == n {
        return None;
    }
    let mut acc: u64 = 0;
    while i < n
        invariant
            n == s@.len(),
            start <= i <= n,
            start < n,
            d == s@.skip(start as int),
            d == unsigned_digits(s@),
            all_digits(d.take(i - start)),
            acc as int == decimal_value(d.take(i - start)),
            acc <= max,
        decreases n - i,
    {
        let c = s.get_char(i);
        let ghost k = i - start;
        assert(d[k] == c);
        if !('0' <= c && c <= '9') {
            assert(!all_digits(d));
            return None;
        }
        let dv = (c as u32 - '0' as u32) as u64;
        assert(d.take(k + 1).drop_last() == d.take(k));
        assert(d.take(k + 1).last() == c);
        assert(all_digits(d.take(k + 1)));
        let next = match acc.checked_mul(10) {
            Some(m) => m.checked_add(dv),
            None => None,
        };
        match next {
            Some(v) if v <= max => {
                acc = v;
            },
            _ => {
                proof {
                    if all_digits(d) {
                        lemma_decimal_value_prefix(d, k + 1);
                    }
                }
                return None;
            },
        }
        i = i + 1;
    }
    assert(d.take(n - start) == d);
    Some(acc)
}

/// Reads a number of seconds (or any other `u64`) as std does.
pub fn parse_u64(s: &str) -> (r: Option<u64>)
    ensures
        match r {
            Some(v) => parse_unsigned(s@, u64::MAX as int) == Some(v as int),
            None => parse_unsigned(s@, u64::MAX as int) is None,
        },
{
    parse_decimal(s, u64::MAX)
}

/// Reads a TCP port number as std does.
pub fn parse_port(s: &str) -> (r: Option<u16>)
    ensures
        match r {
            Some(v) => parse_unsigned(s@, u16::MAX as int) == Some(v as int),
            None => parse_unsigned(s@, u16::MAX as int) is None,
        },
{
    match parse_decimal(s, 65535) {
        Some(v) => Some(v as u16),
        None => None,
    }
}

/// The one-character text of a digit.
fn digit_str(d: u16) -> (r: &'static str)
    requires
        d < 10,
    ensures
        r@ == seq![digit_char(d as int)],
{
    match d {
        1 => {
            proof {
                reveal_strlit("1");
            }
            "1"
        },
        2 => {
            proof {
                reveal_strlit("2");
            }
            "2"
        },
        3 => {
            proof {
                reveal_strlit("3");
            }
            "3"
        },
        4 => {
            proof {
                reveal_strlit("4");
            }
            "4"
        },
        5 => {
            proof {
                reveal_strlit("5");
            }
            "5"
        },
        6 => {
            proof {
                reveal_strlit("6");
            }
            "6"
        },
        7 => {
            proof {
                reveal_strlit("7");
            }
            "7"
        },
        8 => {
            proof {
                reveal_strlit("8");
            }
            "8"
        },
        9 => {
            proof {
                reveal_strlit("9");
            }
            "9"
        },
        _ => {
            proof {
                reveal_strlit("0");
            }
            "0"
        },
    }
}

/// Appends the decimal text of `n` to `s`.
fn write_decimal(n: u16, s: &mut String)
    ensures
        final(s)@ == old(s)@ + decimal_text(n as nat),
    decreases n,
{
    if n >= 10 {
        write_decimal(n / 10, s);
    }
    s.append(digit_str(n % 10));
    proof {
        if n >= 10 {
            assert(decimal_text(n as nat) == decimal_text((n / 10) as nat).push(digit_char((n % 10) as int)));
        }
    }
}

/// Writes a port number as its shortest decimal text, as std's `to_string`
/// does.
pub(crate) fn port_text(p: u16) -> (s: String)
    ensures
        s@ == decimal_text(p as nat),
{
    let mut s = String::new();
    write_decimal(p, &mut s);
    assert(s@ =~= decimal_text(p as nat));
    s
}

proof fn lemma_decimal_text(n: nat)
    ensures
        all_digits(decimal_text(n)),
        decimal_value(decimal_text(n)) == n,
        decimal_text(n).len() > 0,
        decimal_text(n)[0] != '+',
    decreases n,
{
    if n < 10 {
        let t = decimal_text(n);
        assert(t.drop_last().len() == 0);
        assert(digit_value(t.last()) == n);
        assert(decimal_value(t.drop_last()) == 0);
        assert(decimal_value(t) == decimal_value(t.drop_last()) * 10 + digit_value(t.last()));
    } else {
        lemma_decimal_text(n / 10);
        let t = decimal_text(n);
        assert(t.drop_last() == decimal_text(n / 10));
        assert(t.last() == digit_char((n % 10) as int));
        assert(digit_value(t.last()) == n % 10);
        assert((n / 10) * 10 + n % 10 == n);
        assert(decimal_value(t) == decimal_value(t.drop_last()) * 10 + digit_value(t.last()));
        assert(t[0] == decimal_text(n / 10)[0]);
    }
}

/// Reading back the decimal text of a number no larger than `max` gives the
/// number.
pub proof fn law_parse_reads_decimal_text(n: nat, max: int)
    requires
        n <= max,
    ensures
        parse_unsigned(decimal_text(n), max) == Some(n as int),
{
    lemma_decimal_text(n);
}

} // verus!
