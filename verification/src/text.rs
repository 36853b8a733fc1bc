//! Comparing and scanning text and bytes.

use vstd::prelude::*;
use vstd::string::*;

verus! {

/// Index of the first `wanted` at or after `from`; the length of `s` where
/// none follows.
pub open spec fn first_at<T>(s: Seq<T>, wanted: T, from: int) -> int
    recommends
        0 <= from <= s.len(),
    decreases s.len() - from,
{
    if from >= s.len() {
        s.len() as int
    } else if s[from] == wanted {
        from
    } else {
        first_at(s, wanted, from + 1)
    }
}

/// `first_at` stops at the first occurrence and skips nothing before it.
pub proof fn first_at_is_first<T>(s: Seq<T>, wanted: T, from: int)
    requires
        0 <= from <= s.len(),
    ensures
        from <= first_at(s, wanted, from) <= s.len(),
        first_at(s, wanted, from) < s.len() ==> s[first_at(s, wanted, from)] == wanted,
        forall|j: int| from <= j < first_at(s, wanted, from) ==> s[j] != wanted,
    decreases s.len() - from,
{
    if from < s.len() && s[from] != wanted {
        first_at_is_first(s, wanted, from + 1);
    }
}

/// Whether `c` is one of the ten decimal digits.
pub open spec fn is_digit(c: char) -> bool {
    '0' <= c <= '9'
}

/// How many decimal digits `s` ends with.
pub open spec fn trailing_digits(s: Seq<char>) -> nat
    decreases s.len(),
{
    if s.len() > 0 && is_digit(s.last()) {
        1 + trailing_digits(s.drop_last())
    } else {
        0
    }
}

/// The digits that `trailing_digits` counts are the last characters of `s`,
/// all of them are digits, and the character before them is none.
pub proof fn trailing_digits_are_digits(s: Seq<char>)
    ensures
        trailing_digits(s) <= s.len(),
        forall|i: int| s.len() - trailing_digits(s) <= i < s.len() ==> is_digit(s[i]),
        trailing_digits(s) < s.len() ==> !is_digit(s[s.len() - trailing_digits(s) - 1]),
    decreases s.len(),
{
    if s.len() > 0 && is_digit(s.last()) {
        let front = s.drop_last();
        trailing_digits_are_digits(front);
        assert forall|i: int| s.len() - trailing_digits(s) <= i < s.len() implies is_digit(
            s[i],
        ) by {
            if i < front.len() {
                assert(s[i] == front[i]);
            }
        }
    }
}

/// Whether two strings hold the same text.
pub fn str_eq(a: &str, b: &str) -> (same: bool)
    ensures
        same == (a@ == b@),
{
    let x = a.as_bytes();
    let y = b.as_bytes();
    proof {
        vstd::utf8::encode_utf8_decode_utf8(a@);
        vstd::utf8::encode_utf8_decode_utf8(b@);
    }
    if x.len() != y.len() {
        return false;
    }
    let mut i: usize = 0;
    while i < x.len()
        invariant
            x@ == a.spec_bytes(),
            y@ == b.spec_bytes(),
            x@.len() == y@.len(),
            i <= x@.len(),
            forall|j: int| 0 <= j < i ==> x@[j] == y@[j],
        decreases x.len() - i,
    {
        if x[i] != y[i] {
            return false;
        }
        i += 1;
    }
    assert(x@ =~= y@);
    true
}

/// The characters of `s`, one by one.
pub fn chars_of(s: &str) -> (chars: Vec<char>)
    ensures
        chars@ == s@,
{
    let mut chars: Vec<char> = Vec::new();
    for c in it: s.chars()
        invariant
            chars@ == it.seq().take(it.index() as int),
            it.seq() == s@,
    {
        chars.push(c);
    }
    chars
}

/// The text of `s` from character `from` up to character `to`, which stays
/// out.
pub fn piece(s: &str, from: usize, to: usize) -> (text: String)
    requires
        from <= to <= s@.len(),
    ensures
        text@ == s@.subrange(from as int, to as int),
{
    s.substring_char(from, to).to_owned()
}

/// Finds the first `wanted` at or after `from`.
pub fn find_char(s: &Vec<char>, wanted: char, from: usize) -> (at: usize)
    requires
        from <= s.len(),
    ensures
        at == first_at(s@, wanted, from as int),
        from <= at <= s.len(),
{
    let mut i: usize = from;
    while i < s.len() && s[i] != wanted
        invariant
            from <= i <= s.len(),
            first_at(s@, wanted, from as int) == first_at(s@, wanted, i as int),
        decreases s.len() - i,
    {
        i += 1;
    }
    i
}

/// Finds the first `wanted` at or after `from`.
pub fn find_byte(s: &[u8], wanted: u8, from: usize) -> (at: usize)
    requires
        from <= s.len(),
    ensures
        at == first_at(s@, wanted, from as int),
        from <= at <= s.len(),
{
    let mut i: usize = from;
    while i < s.len() && s[i] != wanted
        invariant
            from <= i <= s.len(),
            first_at(s@, wanted, from as int) == first_at(s@, wanted, i as int),
        decreases s.len() - i,
    {
        i += 1;
    }
    i
}

/// Whether `s` begins with `prefix`.
pub fn begins_with(s: &Vec<char>, prefix: &Vec<char>) -> (yes: bool)
    ensures
        yes == prefix@.is_prefix_of(s@),
{
    if prefix.len() > s.len() {
        return false;
    }
    let mut i: usize = 0;
    while i < prefix.len()
        invariant
            prefix.len() <= s.len(),
            i <= prefix.len(),
            forall|j: int| 0 <= j < i ==> s@[j] == prefix@[j],
        decreases prefix.len() - i,
    {
        if s[i] != prefix[i] {
            return false;
        }
        i += 1;
    }
    true
}

/// Counts the decimal digits that end the part of `s` that starts at `from`.
pub fn count_trailing_digits(s: &Vec<char>, from: usize) -> (count: usize)
    requires
        from <= s.len(),
    ensures
        count == trailing_digits(s@.skip(from as int)),
        count <= s.len() - from,
{
    let ghost tail = s@.skip(from as int);
    let mut end: usize = s.len();
    assert(tail.take(s.len() - from) =~= tail);
    while end > from && '0' <= s[end - 1] && s[end - 1] <= '9'
        invariant
            from <= end <= s.len(),
            tail == s@.skip(from as int),
            trailing_digits(tail) == (s.len() - end) + trailing_digits(tail.take(end - from)),
        decreases end,
    {
        proof {
            let part = tail.take(end - from);
            assert(part.drop_last() =~= tail.take(end - 1 - from));
        }
        end -= 1;
    }
    s.len() - end
}

} // verus!
