//! Small helpers on strings and on lists of string pairs.

use vstd::prelude::*;
use vstd::string::StringExecFns;
use vstd::string::StrSliceExecFns;

verus! {

/// The characters of `s`, in order.
pub fn chars_of(s: &str) -> (v: Vec<char>)
    ensures
        v@ == s@,
{
    let mut v: Vec<char> = Vec::new();
    for c in it: s.chars()
        invariant
            it.seq() == s@,
            v@.len() == it.index(),
            forall|j: int| 0 <= j < v@.len() ==> v@[j] == it.seq()[j],
    {
        v.push(c);
    }
    assert(v@ =~= s@);
    v
}

/// The values of a list of string pairs.
pub open spec fn pairs_view(v: Seq<(String, String)>) -> Seq<(Seq<char>, Seq<char>)> {
    Seq::new(v.len(), |i: int| (v[i].0@, v[i].1@))
}

/// The pair of owned strings with the values of `key` and `value`.
pub fn pair(key: &str, value: &str) -> (p: (String, String))
    ensures
        p.0@ == key@,
        p.1@ == value@,
{
    (String::from_str(key), String::from_str(value))
}

/// Whether two strings hold the same characters.
pub fn same_text(a: &str, b: &str) -> (r: bool)
    ensures
        r == (a@ == b@),
{
    let left = String::from_str(a);
    let right = String::from_str(b);
    left == right
}

/// The value of the first pair at or after position `from` whose key is
/// `key`, if there is one.
pub open spec fn first_value_from(pairs: Seq<(Seq<char>, Seq<char>)>, key: Seq<char>, from: int) -> Option<
    Seq<char>,
>
    decreases pairs.len() - from,
{
    if from < 0 || from >= pairs.len() {
        None
    } else if pairs[from].0 == key {
        Some(pairs[from].1)
    } else {
        first_value_from(pairs, key, from + 1)
    }
}

/// The value of the first pair whose key is `key`, if there is one.
pub open spec fn first_value(pairs: Seq<(Seq<char>, Seq<char>)>, key: Seq<char>) -> Option<
    Seq<char>,
> {
    first_value_from(pairs, key, 0)
}

/// Looks `key` up in a list of pairs: the value of the first pair that has
/// this key.
pub fn find_param(pairs: &Vec<(String, String)>, key: &str) -> (r: Option<String>)
    ensures
        crate::config::option_text(r) == first_value(pairs_view(pairs@), key@),
{
    let mut i: usize = 0;
    while i < pairs.len()
        invariant
            i <= pairs.len(),
            first_value(pairs_view(pairs@), key@) == first_value_from(
                pairs_view(pairs@),
                key@,
                i as int,
            ),
        decreases pairs.len() - i,
    {
        if same_text(pairs[i].0.as_str(), key) {
            return Some(pairs[i].1.clone());
        }
        i += 1;
    }
    None
}

/// The decimal digit for a value below ten.
pub open spec fn digit_char(d: int) -> char
    recommends
        0 <= d < 10,
{
    if d == 0 {
        '0'
    } else if d == 1 {
        '1'
    } else if d == 2 {
        '2'
    } else if d == 3 {
        '3'
    } else if d == 4 {
        '4'
    } else if d == 5 {
        '5'
    } else if d == 6 {
        '6'
    } else if d == 7 {
        '7'
    } else if d == 8 {
        '8'
    } else {
        '9'
    }
}

/// A natural number in decimal notation, without leading zeros.
pub open spec fn decimal_text(n: nat) -> Seq<char>
    decreases n,
{
    if n < 10 {
        seq![digit_char(n as int)]
    } else {
        decimal_text(n / 10).push(digit_char((n % 10) as int))
    }
}

/// The one-character string for a digit.
fn digit_text(d: u128) -> (s: &'static str)
    requires
        d < 10,
    ensures
        s@ == seq![digit_char(d as int)],
{
    proof {
        reveal_strlit("0");
        reveal_strlit("1");
        reveal_strlit("2");
        reveal_strlit("3");
        reveal_strlit("4");
        reveal_strlit("5");
        reveal_strlit("6");
        reveal_strlit("7");
        reveal_strlit("8");
        reveal_strlit("9");
    }
    let s = if d == 0 {
        "0"
    } else if d == 1 {
        "1"
    } else if d == 2 {
        "2"
    } else if d == 3 {
        "3"
    } else if d == 4 {
        "4"
    } else if d == 5 {
        "5"
    } else if d == 6 {
        "6"
    } else if d == 7 {
        "7"
    } else if d == 8 {
        "8"
    } else {
        "9"
    };
    assert(s@ =~= seq![digit_char(d as int)]);
    s
}

/// Writes a number in decimal notation.
pub fn decimal(n: u128) -> (s: String)
    ensures
        s@ == decimal_text(n as nat),
    decreases n,
{
    if n < 10 {
        String::from_str(digit_text(n))
    } else {
        let mut s = decimal(n / 10);
        s.append(digit_text(n % 10));
        assert(s@ =~= decimal_text(n as nat));
        s
    }
}

/// An integer in decimal notation, with a minus sign if it is negative.
pub open spec fn signed_decimal_text(n: int) -> Seq<char> {
    if n < 0 {
        seq!['-'] + decimal_text((-n) as nat)
    } else {
        decimal_text(n as nat)
    }
}

/// Writes an integer in decimal notation.
pub fn signed_decimal(n: i128) -> (s: String)
    ensures
        s@ == signed_decimal_text(n as int),
{
    if n < 0 {
        let magnitude: u128 = (-(n + 1)) as u128 + 1;
        let mut s = String::from_str("-");
        proof {
            reveal_strlit("-");
        }
        let digits = decimal(magnitude);
        s.append(digits.as_str());
        assert(s@ =~= signed_decimal_text(n as int));
        s
    } else {
        decimal(n as u128)
    }
}

/// The first position at or after `from` that holds no whitespace, or the
/// length of `s` if there is none.
pub open spec fn skip_spaces(s: Seq<char>, from: int) -> int
    decreases s.len() - from,
{
    if 0 <= from < s.len() && is_whitespace(s[from]) {
        skip_spaces(s, from + 1)
    } else {
        from
    }
}

/// The first position at or after `from` that holds whitespace, or the length
/// of `s` if there is none.
pub open spec fn skip_word(s: Seq<char>, from: int) -> int
    decreases s.len() - from,
{
    if 0 <= from < s.len() && !is_whitespace(s[from]) {
        skip_word(s, from + 1)
    } else {
        from
    }
}

/// The first position at or after `from` that holds no whitespace.
pub(crate) fn spaces_end(chars: &Vec<char>, from: usize) -> (end: usize)
    requires
        from <= chars@.len(),
    ensures
        end == skip_spaces(chars@, from as int),
        from <= end <= chars@.len(),
{
    let mut i: usize = from;
    while i < chars.len() && char_is_whitespace(chars[i])
        invariant
            from <= i <= chars@.len(),
            skip_spaces(chars@, from as int) == skip_spaces(chars@, i as int),
        decreases chars@.len() - i,
    {
        i += 1;
    }
    i
}

/// The first position at or after `from` that holds whitespace.
pub(crate) fn word_end(chars: &Vec<char>, from: usize) -> (end: usize)
    requires
        from <= chars@.len(),
    ensures
        end == skip_word(chars@, from as int),
        from <= end <= chars@.len(),
{
    let mut i: usize = from;
    while i < chars.len() && !char_is_whitespace(chars[i])
        invariant
            from <= i <= chars@.len(),
            skip_word(chars@, from as int) == skip_word(chars@, i as int),
        decreases chars@.len() - i,
    {
        i += 1;
    }
    i
}

/// The end of what is left of `s` between `low` and `high` once the
/// whitespace before `high` is taken away.
pub open spec fn content_end(s: Seq<char>, low: int, high: int) -> int
    decreases high - low,
{
    if low < high <= s.len() && is_whitespace(s[high - 1]) {
        content_end(s, low, high - 1)
    } else {
        high
    }
}

/// `s` without the whitespace at its start and at its end.
pub open spec fn trimmed(s: Seq<char>) -> Seq<char> {
    let start = skip_spaces(s, 0);
    s.subrange(start, content_end(s, start, s.len() as int))
}

/// The first position at or after `from` that holds `separator`, or the
/// length of `s` if there is none.
pub open spec fn next_separator(s: Seq<char>, separator: char, from: int) -> int
    decreases s.len() - from,
{
    if 0 <= from < s.len() && s[from] != separator {
        next_separator(s, separator, from + 1)
    } else {
        from
    }
}

/// The first position at or after `from` that holds `separator`.
pub(crate) fn separator_position(chars: &Vec<char>, separator: char, from: usize) -> (end: usize)
    requires
        from <= chars@.len(),
    ensures
        end == next_separator(chars@, separator, from as int),
        from <= end <= chars@.len(),
{
    let mut i: usize = from;
    while i < chars.len() && chars[i] != separator
        invariant
            from <= i <= chars@.len(),
            next_separator(chars@, separator, from as int) == next_separator(
                chars@,
                separator,
                i as int,
            ),
        decreases chars@.len() - i,
    {
        i += 1;
    }
    i
}

/// The trimmed, non-empty items of a comma-separated list from position
/// `from` on, in order.
pub open spec fn items_from(s: Seq<char>, from: int) -> Seq<Seq<char>>
    decreases s.len() - from,
{
    if from < 0 || from > s.len() {
        Seq::empty()
    } else {
        let end = next_separator(s, ',', from);
        let item = trimmed(s.subrange(from, end));
        let head = if item.len() > 0 {
            seq![item]
        } else {
            Seq::empty()
        };
        if from <= end < s.len() {
            head + items_from(s, end + 1)
        } else {
            head
        }
    }
}

/// The tags that a comma-separated list names: its items without the
/// whitespace around them, empty ones left out.
pub open spec fn tag_list(s: Seq<char>) -> Seq<Seq<char>> {
    items_from(s, 0)
}

/// The bounds of the trimmed text between `from` and `to`.
fn trim_bounds(chars: &Vec<char>, from: usize, to: usize) -> (r: (usize, usize))
    requires
        from <= to <= chars@.len(),
    ensures
        from <= r.0 <= r.1 <= to,
        chars@.subrange(r.0 as int, r.1 as int) == trimmed(chars@.subrange(from as int, to as int)),
{
    let ghost part = chars@.subrange(from as int, to as int);
    let mut start: usize = from;
    while start < to && char_is_whitespace(chars[start])
        invariant
            from <= start <= to <= chars@.len(),
            part == chars@.subrange(from as int, to as int),
            skip_spaces(part, 0) == skip_spaces(part, start - from),
        decreases to - start,
    {
        assert(part[start - from] == chars@[start as int]);
        start += 1;
    }
    proof {
        if start < to {
            assert(part[start - from] == chars@[start as int]);
        }
    }
    let mut end: usize = to;
    while start < end && char_is_whitespace(chars[end - 1])
        invariant
            from <= start <= end <= to <= chars@.len(),
            part == chars@.subrange(from as int, to as int),
            content_end(part, start - from, part.len() as int) == content_end(
                part,
                start - from,
                end - from,
            ),
        decreases end - start,
    {
        assert(part[end - 1 - from] == chars@[end - 1]);
        end -= 1;
    }
    proof {
        if start < end {
            assert(part[end - 1 - from] == chars@[end - 1]);
        }
        assert(chars@.subrange(start as int, end as int) =~= part.subrange(
            start - from,
            end - from,
        ));
    }
    (start, end)
}

/// Splits a comma-separated list into its tags.
pub fn parse_tags(list: &str) -> (tags: Vec<String>)
    ensures
        crate::config::texts(tags@) == tag_list(list@),
{
    let chars = chars_of(list);
    let mut tags: Vec<String> = Vec::new();
    let mut from: usize = 0;
    loop
        invariant
            chars@ == list@,
            from <= chars@.len(),
            tag_list(list@) == crate::config::texts(tags@) + items_from(chars@, from as int),
        decreases chars@.len() - from,
    {
        let end = separator_position(&chars, ',', from);
        let bounds = trim_bounds(&chars, from, end);
        let ghost before = crate::config::texts(tags@);
        let ghost item = trimmed(chars@.subrange(from as int, end as int));
        let ghost head = if item.len() > 0 {
            seq![item]
        } else {
            Seq::empty()
        };
        if bounds.0 < bounds.1 {
            tags.push(String::from_str(list.substring_char(bounds.0, bounds.1)));
        }
        assert(crate::config::texts(tags@) =~= before + head);
        if end < chars.len() {
            assert(before + (head + items_from(chars@, end + 1)) =~= (before + head) + items_from(
                chars@,
                end + 1,
            ));
            from = end + 1;
        } else {
            return tags;
        }
    }
}

/// Whether `s` ends with `suffix`.
pub open spec fn has_suffix(s: Seq<char>, suffix: Seq<char>) -> bool {
    s.len() >= suffix.len() && s.subrange(s.len() - suffix.len(), s.len() as int) == suffix
}

/// Whether `s` ends with `suffix`.
pub fn ends_with(s: &str, suffix: &str) -> (r: bool)
    ensures
        r == has_suffix(s@, suffix@),
{
    let text = chars_of(s);
    let tail = chars_of(suffix);
    if text.len() < tail.len() {
        return false;
    }
    let offset: usize = text.len() - tail.len();
    let ghost end = text@.subrange(offset as int, text@.len() as int);
    let mut i: usize = 0;
    while i < tail.len()
        invariant
            i <= tail@.len(),
            offset + tail@.len() == text@.len(),
            text@.len() <= usize::MAX,
            text@ == s@,
            tail@ == suffix@,
            end == text@.subrange(offset as int, text@.len() as int),
            forall|j: int| 0 <= j < i ==> end[j] == tail@[j],
        decreases tail@.len() - i,
    {
        if text[offset + i] != tail[i] {
            assert(end[i as int] != tail@[i as int]);
            return false;
        }
        i += 1;
    }
    assert(end =~= tail@);
    true
}

/// `s` without its first character if that is `lead`, and `s` itself
/// otherwise.
pub open spec fn without_lead(s: Seq<char>, lead: char) -> Seq<char> {
    if s.len() > 0 && s[0] == lead {
        s.skip(1)
    } else {
        s
    }
}

/// Drops the first character of `s` if it is `lead`.
pub fn strip_lead(s: &str, lead: char) -> (r: String)
    ensures
        r@ == without_lead(s@, lead),
{
    let chars = chars_of(s);
    if chars.len() > 0 && chars[0] == lead {
        let rest = s.substring_char(1, chars.len());
        assert(s@.subrange(1, s@.len() as int) =~= s@.skip(1));
        String::from_str(rest)
    } else {
        String::from_str(s)
    }
}

/// Whether `c` has the Unicode property White_Space.
pub open spec fn is_whitespace(c: char) -> bool {
    let code = c as u32;
    (0x09 <= code <= 0x0D) || code == 0x20 || code == 0x85 || code == 0xA0 || code == 0x1680 || (
    0x2000 <= code <= 0x200A) || code == 0x2028 || code == 0x2029 || code == 0x202F || code
        == 0x205F || code == 0x3000
}

/// Whether `c` has the Unicode property White_Space.
pub fn char_is_whitespace(c: char) -> (r: bool)
    ensures
        r == is_whitespace(c),
{
    let code: u32 = c as u32;
    (0x09 <= code && code <= 0x0D) || code == 0x20 || code == 0x85 || code == 0xA0 || code
        == 0x1680 || (0x2000 <= code && code <= 0x200A) || code == 0x2028 || code == 0x2029
        || code == 0x202F || code == 0x205F || code == 0x3000
}

} // verus!
