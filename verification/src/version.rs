//! Reading dotted version strings such as `2026.6.0`.

use vstd::prelude::*;
use crate::text::{chars_of, next_separator, separator_position};

verus! {

/// Whether `c` is a decimal digit.
pub open spec fn is_digit(c: char) -> bool {
    '0' <= c && c <= '9'
}

/// The value of a decimal digit.
pub open spec fn digit_value(c: char) -> nat
    recommends
        is_digit(c),
{
    (c as u32 - '0' as u32) as nat
}

/// Whether every character of `s` is a decimal digit.
pub open spec fn all_digits(s: Seq<char>) -> bool {
    forall|i: int| 0 <= i < s.len() ==> is_digit(#[trigger] s[i])
}

/// The number that a string of decimal digits denotes.
pub open spec fn digits_value(s: Seq<char>) -> nat
    decreases s.len(),
{
    if s.len() == 0 {
        0
    } else {
        digits_value(s.drop_last()) * 10 + digit_value(s.last())
    }
}

/// The number that `s` denotes as an unsigned 64-bit integer: an optional
/// plus sign and then one or more decimal digits, whose value must fit.
pub open spec fn parse_u64(s: Seq<char>) -> Option<u64> {
    let digits = if s.len() > 0 && s[0] == '+' {
        s.skip(1)
    } else {
        s
    };
    if digits.len() > 0 && all_digits(digits) && digits_value(digits) <= u64::MAX {
        Some(digits_value(digits) as u64)
    } else {
        None
    }
}

/// The numbers among the dot-separated parts of `s` from position `from` on,
/// in order. Parts that are not numbers are left out.
pub open spec fn parts_from(s: Seq<char>, from: int) -> Seq<u64>
    decreases s.len() - from,
{
    if from < 0 || from > s.len() {
        Seq::empty()
    } else {
        let end = next_separator(s, '.', from);
        let head = match parse_u64(s.subrange(from, end)) {
            Some(n) => seq![n],
            None => Seq::empty(),
        };
        if from <= end < s.len() {
            head + parts_from(s, end + 1)
        } else {
            head
        }
    }
}

/// The numbers among the dot-separated parts of a version string.
pub open spec fn version_parts(s: Seq<char>) -> Seq<u64> {
    parts_from(s, 0)
}

/// How a remote version stands to the current one.
#[derive(Clone, Copy, Debug, PartialEq, Eq, Structural)]
pub enum VersionOrder {
    /// The remote version is older than the current one.
    Older,
    /// Both are the same version.
    Same,
    /// The remote version is newer than the current one.
    Newer,
}

/// How `remote` stands to `current` from position `from` on: the first
/// position at which they differ decides, and where one of them ends first,
/// that one is the older.
pub open spec fn order_from(current: Seq<u64>, remote: Seq<u64>, from: int) -> VersionOrder
    decreases current.len() - from,
{
    if from < 0 {
        VersionOrder::Same
    } else if from >= current.len() {
        if from >= remote.len() {
            VersionOrder::Same
        } else {
            VersionOrder::Newer
        }
    } else if from >= remote.len() {
        VersionOrder::Older
    } else if remote[from] > current[from] {
        VersionOrder::Newer
    } else if remote[from] < current[from] {
        VersionOrder::Older
    } else {
        order_from(current, remote, from + 1)
    }
}

/// How `remote` stands to `current` when both are compared number by number.
pub open spec fn version_order(current: Seq<u64>, remote: Seq<u64>) -> VersionOrder {
    order_from(current, remote, 0)
}

/// Compares two versions number by number.
pub fn compare_parts(current: &Vec<u64>, remote: &Vec<u64>) -> (r: VersionOrder)
    ensures
        r == version_order(current@, remote@),
{
    let mut i: usize = 0;
    while i < current.len() && i < remote.len()
        invariant
            i <= current@.len(),
            i <= remote@.len(),
            version_order(current@, remote@) == order_from(current@, remote@, i as int),
        decreases current@.len() - i,
    {
        if remote[i] > current[i] {
            return VersionOrder::Newer;
        }
        if remote[i] < current[i] {
            return VersionOrder::Older;
        }
        i += 1;
    }
    if i < remote.len() {
        VersionOrder::Newer
    } else if i < current.len() {
        VersionOrder::Older
    } else {
        VersionOrder::Same
    }
}

/// A string of digits denotes at least as much as each of its prefixes.
proof fn lemma_digits_value_grows(s: Seq<char>, n: int)
    requires
        0 <= n <= s.len(),
    ensures
        digits_value(s.take(n)) <= digits_value(s),
    decreases s.len() - n,
{
    if n == s.len() {
        assert(s.take(n) =~= s);
    } else {
        lemma_digits_value_grows(s, n + 1);
        assert(s.take(n + 1).drop_last() =~= s.take(n));
        assert(digits_value(s.take(n + 1)) == digits_value(s.take(n)) * 10 + digit_value(
            s.take(n + 1).last(),
        ));
    }
}

/// Reads the characters of `chars` between `from` and `to` as an unsigned
/// 64-bit integer.
fn parse_number(chars: &Vec<char>, from: usize, to: usize) -> (r: Option<u64>)
    requires
        from <= to <= chars@.len(),
    ensures
        r == parse_u64(chars@.subrange(from as int, to as int)),
{
    let ghost whole = chars@.subrange(from as int, to as int);
    let start: usize = if from < to && chars[from] == '+' {
        from + 1
    } else {
        from
    };
    let ghost digits = chars@.subrange(start as int, to as int);
    proof {
        if from < to && chars@[from as int] == '+' {
            assert(whole[0] == '+');
            assert(whole.skip(1) =~= digits);
        } else {
            assert(whole =~= digits);
            if whole.len() > 0 {
                assert(whole[0] == chars@[from as int]);
            }
        }
    }
    if start == to {
        return None;
    }
    let mut value: u64 = 0;
    let mut i: usize = start;
    while i < to
        invariant
            start <= i <= to <= chars@.len(),
            digits == chars@.subrange(start as int, to as int),
            parse_u64(chars@.subrange(from as int, to as int)) == (if all_digits(digits)
                && digits_value(digits) <= u64::MAX {
                Some(digits_value(digits) as u64)
            } else {
                None
            }),
            all_digits(digits.take(i - start)),
            value == digits_value(digits.take(i - start)),
        decreases to - i,
    {
        let c = chars[i];
        proof {
            assert(digits[i - start] == c);
            assert(digits.take(i - start + 1).drop_last() =~= digits.take(i - start));
            assert(digits.take(i - start + 1).last() == c);
        }
        if !('0' <= c && c <= '9') {
            assert(!is_digit(digits[i - start]));
            return None;
        }
        let d: u64 = (c as u32 - '0' as u32) as u64;
        assert(digits_value(digits.take(i - start + 1)) == value * 10 + d);
        if value > (u64::MAX - d) / 10 {
            proof {
                lemma_digits_value_grows(digits, i - start + 1);
            }
            return None;
        }
        value = value * 10 + d;
        proof {
            assert forall|j: int| 0 <= j < digits.take(i - start + 1).len() implies is_digit(
                #[trigger] digits.take(i - start + 1)[j],
            ) by {
                if j < i - start {
                    assert(digits.take(i - start + 1)[j] == digits.take(i - start)[j]);
                }
            }
        }
        i += 1;
    }
    proof {
        assert(digits.take(i - start) =~= digits);
    }
    Some(value)
}

/// The numbers among the dot-separated parts of a version string, in order.
pub fn parse_version(version: &str) -> (parts: Vec<u64>)
    ensures
        parts@ == version_parts(version@),
{
    let chars = chars_of(version);
    let mut parts: Vec<u64> = Vec::new();
    let mut from: usize = 0;
    loop
        invariant
            chars@ == version@,
            from <= chars@.len(),
            version_parts(version@) == parts@ + parts_from(chars@, from as int),
        decreases chars@.len() - from,
    {
        let end = separator_position(&chars, '.', from);
        let ghost before = parts@;
        match parse_number(&chars, from, end) {
            Some(n) => {
                parts.push(n);
            },
            None => {},
        }
        if end < chars.len() {
            proof {
                let head = match parse_u64(chars@.subrange(from as int, end as int)) {
                    Some(n) => seq![n],
                    None => Seq::empty(),
                };
                assert(parts@ =~= before + head);
                assert(before + (head + parts_from(chars@, end + 1)) =~= (before + head)
                    + parts_from(chars@, end + 1));
            }
            from = end + 1;
        } else {
            proof {
                let head = match parse_u64(chars@.subrange(from as int, end as int)) {
                    Some(n) => seq![n],
                    None => Seq::empty(),
                };
                assert(parts@ =~= before + head);
            }
            return parts;
        }
    }
}

} // verus!
