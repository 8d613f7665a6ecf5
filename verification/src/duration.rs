//! Parsing of the user's time string into milliseconds.
//!
//! A string holding `'m'` is minutes, one holding `'s'` is seconds, one
//! holding `'h'` is hours — tried in that order; the unit characters are
//! removed and the remaining digits give the count. A string with no unit
//! parses to zero.

use vstd::prelude::*;
use vstd::string::*;

verus! {

/// A decimal digit.
pub open spec fn is_digit_char(c: char) -> bool {
    '0' <= c && c <= '9'
}

/// The numeric value of one digit.
pub open spec fn digit_val(c: char) -> nat {
    (c as nat - '0' as nat) as nat
}

/// Every character of `s` is a digit.
pub open spec fn all_digits(s: Seq<char>) -> bool {
    forall|i: int| 0 <= i < s.len() ==> is_digit_char(#[trigger] s[i])
}

/// The value of a digit string, most significant digit first.
pub open spec fn digits_val(s: Seq<char>) -> nat
    decreases s.len(),
{
    if s.len() == 0 {
        0
    } else {
        digits_val(s.drop_last()) * 10 + digit_val(s.last())
    }
}

/// `s` with every occurrence of `unit` removed.
pub open spec fn strip_unit(s: Seq<char>, unit: char) -> Seq<char>
    decreases s.len(),
{
    if s.len() == 0 {
        Seq::empty()
    } else {
        let rest = strip_unit(s.drop_last(), unit);
        if s.last() == unit {
            rest
        } else {
            rest.push(s.last())
        }
    }
}

/// The unit character the parser selects, if any: `'m'`, then `'s'`, then
/// `'h'`, in that order of precedence.
pub open spec fn selected_unit(s: Seq<char>) -> Option<char> {
    if s.contains('m') {
        Some('m')
    } else if s.contains('s') {
        Some('s')
    } else if s.contains('h') {
        Some('h')
    } else {
        None
    }
}

/// Milliseconds per selected unit.
pub open spec fn unit_factor(unit: char) -> nat {
    if unit == 'm' {
        60000
    } else if unit == 's' {
        1000
    } else {
        3600000
    }
}

/// The milliseconds a time string stands for: the digit count times the
/// unit's factor, or zero when no unit is named.
pub open spec fn parse_time_millis(s: Seq<char>) -> nat {
    match selected_unit(s) {
        Some(u) => digits_val(strip_unit(s, u)) * unit_factor(u),
        None => 0,
    }
}

/// A time string the parser accepts: either no unit at all, or, once the
/// unit characters are removed, a nonempty run of digits whose value in
/// milliseconds fits the result type.
pub open spec fn valid_time_string(s: Seq<char>) -> bool {
    match selected_unit(s) {
        Some(u) => {
            let digits = strip_unit(s, u);
            &&& digits.len() > 0
            &&& all_digits(digits)
            &&& digits_val(digits) * unit_factor(u) <= u64::MAX
        },
        None => true,
    }
}

/// A value never shrinks when more digits follow it.
proof fn lemma_digits_val_concat_ge(a: Seq<char>, b: Seq<char>)
    ensures
        digits_val(a + b) >= digits_val(a),
    decreases b.len(),
{
    if b.len() == 0 {
        assert(a + b =~= a);
    } else {
        assert((a + b).drop_last() =~= a + b.drop_last());
        lemma_digits_val_concat_ge(a, b.drop_last());
    }
}

/// Stripping a unit distributes over splitting the string.
proof fn lemma_strip_unit_take(s: Seq<char>, unit: char, i: int)
    requires
        0 <= i <= s.len(),
    ensures
        strip_unit(s, unit) == strip_unit(s.take(i), unit) + strip_unit(s.skip(i), unit),
    decreases s.len() - i,
{
    if i == s.len() {
        assert(s.take(i) =~= s);
        assert(s.skip(i) =~= Seq::<char>::empty());
        assert(strip_unit(s, unit) + Seq::<char>::empty() =~= strip_unit(s, unit));
    } else {
        lemma_strip_unit_take(s, unit, i + 1);
        let t = s.take(i + 1);
        assert(t.drop_last() =~= s.take(i));
        assert(t.last() == s[i]);
        let rest = s.skip(i);
        assert(rest.len() > 0);
        assert(rest[0] == s[i]);
        // peel the first element of the skipped part
        lemma_strip_unit_first(rest, unit);
        assert(rest.drop_first() =~= s.skip(i + 1));
        if s[i] == unit {
            assert(strip_unit(t, unit) == strip_unit(s.take(i), unit));
            assert(strip_unit(rest, unit) == strip_unit(s.skip(i + 1), unit));
        } else {
            assert(strip_unit(t, unit) == strip_unit(s.take(i), unit).push(s[i]));
            assert(strip_unit(rest, unit) == seq![s[i]] + strip_unit(s.skip(i + 1), unit));
            assert(strip_unit(s.take(i), unit) + strip_unit(rest, unit) =~= strip_unit(t, unit)
                + strip_unit(s.skip(i + 1), unit));
        }
    }
}

/// Stripping from the front: the first character is kept or dropped, and
/// the rest is stripped unchanged.
proof fn lemma_strip_unit_first(s: Seq<char>, unit: char)
    requires
        s.len() > 0,
    ensures
        strip_unit(s, unit) == if s[0] == unit {
            strip_unit(s.drop_first(), unit)
        } else {
            seq![s[0]] + strip_unit(s.drop_first(), unit)
        },
    decreases s.len(),
{
    if s.len() == 1 {
        assert(s.drop_last() =~= Seq::<char>::empty());
        assert(s.drop_first() =~= Seq::<char>::empty());
        if s[0] != unit {
            assert(strip_unit(s, unit) =~= seq![s[0]] + strip_unit(s.drop_first(), unit));
        }
    } else {
        lemma_strip_unit_first(s.drop_last(), unit);
        assert(s.drop_last()[0] == s[0]);
        assert(s.drop_last().drop_first() =~= s.drop_first().drop_last());
        assert(s.drop_first().last() == s.last());
        if s[0] == unit {
            if s.last() == unit {
            } else {
                assert(strip_unit(s, unit) == strip_unit(s.drop_last(), unit).push(s.last()));
            }
        } else {
            if s.last() == unit {
            } else {
                assert(seq![s[0]] + strip_unit(s.drop_first().drop_last(), unit).push(s.last())
                    =~= (seq![s[0]] + strip_unit(s.drop_first().drop_last(), unit)).push(
                    s.last(),
                ));
            }
        }
    }
}

/// Whether `s` holds the character `c`.
fn contains_char(s: &str, c: char) -> (b: bool)
    ensures
        b == s@.contains(c),
{
    let len = s.unicode_len();
    let mut i: usize = 0;
    while i < len
        invariant
            len == s@.len(),
            0 <= i <= len,
            forall|k: int| 0 <= k < i ==> s@[k] != c,
        decreases len - i,
    {
        if s.get_char(i) == c {
            assert(s@[i as int] == c);
            return true;
        }
        i += 1;
    }
    false
}

/// The value of the digits of `s` once every `unit` character is removed.
fn stripped_digits_value(s: &str, unit: char) -> (v: u64)
    requires
        all_digits(strip_unit(s@, unit)),
        digits_val(strip_unit(s@, unit)) <= u64::MAX,
    ensures
        v == digits_val(strip_unit(s@, unit)),
{
    let len = s.unicode_len();
    let mut v: u64 = 0;
    let mut i: usize = 0;
    proof {
        assert(s@.take(0) =~= Seq::<char>::empty());
    }
    while i < len
        invariant
            len == s@.len(),
            0 <= i <= len,
            all_digits(strip_unit(s@, unit)),
            digits_val(strip_unit(s@, unit)) <= u64::MAX,
            v == digits_val(strip_unit(s@.take(i as int), unit)),
        decreases len - i,
    {
        let c = s.get_char(i);
        proof {
            assert(s@.take(i as int + 1).drop_last() =~= s@.take(i as int));
            assert(s@.take(i as int + 1).last() == s@[i as int]);
            lemma_strip_unit_take(s@, unit, i as int + 1);
            lemma_digits_val_concat_ge(
                strip_unit(s@.take(i as int + 1), unit),
                strip_unit(s@.skip(i as int + 1), unit),
            );
        }
        if c != unit {
            proof {
                let stripped = strip_unit(s@.take(i as int + 1), unit);
                assert(stripped == strip_unit(s@.take(i as int), unit).push(c));
                assert(stripped.drop_last() =~= strip_unit(s@.take(i as int), unit));
                assert(stripped.last() == c);
                assert(digits_val(stripped) <= u64::MAX);
                assert(is_digit_char(c)) by {
                    let whole = strip_unit(s@, unit);
                    let k = stripped.len() - 1;
                    assert(whole[k] == stripped[k]);
                }
            }
            assert('0' <= c && c <= '9');
            let d = (c as u32 - '0' as u32) as u64;
            assert(d == digit_val(c));
            v = v * 10 + d;
        } else {
            proof {
                assert(strip_unit(s@.take(i as int + 1), unit) == strip_unit(
                    s@.take(i as int),
                    unit,
                ));
            }
        }
        i += 1;
    }
    proof {
        assert(s@.take(len as int) =~= s@);
    }
    v
}

/// Parses the user's time string into milliseconds, exactly as
/// [`parse_time_millis`] describes: the digits give the count, a `'m'`
/// means minutes, a `'s'` seconds, a `'h'` hours, and a string with no
/// unit parses to zero.
pub fn parse_time_string(time: &String) -> (r: u64)
    requires
        valid_time_string(time@),
    ensures
        r == parse_time_millis(time@),
{
    let s = time.as_str();
    if contains_char(s, 'm') {
        let v = stripped_digits_value(s, 'm');
        v * 60000
    } else if contains_char(s, 's') {
        let v = stripped_digits_value(s, 's');
        v * 1000
    } else if contains_char(s, 'h') {
        let v = stripped_digits_value(s, 'h');
        v * 3600000
    } else {
        0
    }
}

} // verus!
