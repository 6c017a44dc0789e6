//! Checks on submitted text fields.

use vstd::prelude::*;
use crate::text::chars_of;

verus! {

/// The code points that count as white space when a field is trimmed.
pub open spec fn is_space(c: char) -> bool {
    let v = c as u32;
    (0x09 <= v && v <= 0x0D) || v == 0x20 || v == 0x85 || v == 0xA0 || v == 0x1680 || (0x2000 <= v
        && v <= 0x200A) || v == 0x2028 || v == 0x2029 || v == 0x202F || v == 0x205F || v == 0x3000
}

/// The index of the first character at or after `from` that is not white
/// space, or the length of `s` if there is none.
pub open spec fn first_kept(s: Seq<char>, from: int) -> int
    decreases s.len() - from,
{
    if 0 <= from < s.len() && is_space(s[from]) {
        first_kept(s, from + 1)
    } else {
        from
    }
}

/// The end of the text that is left of `s[lo..to]` once trailing white space
/// is cut off.
pub open spec fn last_kept(s: Seq<char>, lo: int, to: int) -> int
    decreases to - lo,
{
    if lo < to <= s.len() && is_space(s[to - 1]) {
        last_kept(s, lo, to - 1)
    } else {
        to
    }
}

/// `s` without its leading and trailing white space.
pub open spec fn trimmed(s: Seq<char>) -> Seq<char> {
    let lo = first_kept(s, 0);
    s.subrange(lo, last_kept(s, lo, s.len() as int))
}

/// The number of bytes that `c` takes in UTF-8.
pub open spec fn char_width(c: char) -> nat {
    let v = c as u32;
    if v < 0x80 {
        1
    } else if v < 0x800 {
        2
    } else if v < 0x10000 {
        3
    } else {
        4
    }
}

/// The number of bytes that `s` takes in UTF-8.
pub open spec fn utf8_len(s: Seq<char>) -> nat
    decreases s.len(),
{
    if s.len() == 0 {
        0
    } else {
        utf8_len(s.drop_last()) + char_width(s.last())
    }
}

/// A text has the shape of an address when it holds exactly one `@`, which is
/// neither its first nor its last character, and when, trimmed, it is at
/// least five bytes long.
pub open spec fn email_shape(s: Seq<char>) -> bool {
    &&& exists|i: int|
        0 < i < s.len() - 1 && s[i] == '@' && forall|j: int|
            0 <= j < s.len() && s[j] == '@' ==> j == i
    &&& utf8_len(trimmed(s)) >= 5
}

/// A text is blank when every character of it is white space.
pub open spec fn is_blank(s: Seq<char>) -> bool {
    forall|i: int| 0 <= i < s.len() ==> is_space(s[i])
}

/// Whether `c` is white space.
pub fn char_is_space(c: char) -> (r: bool)
    ensures
        r == is_space(c),
{
    let v: u32 = c as u32;
    (0x09 <= v && v <= 0x0D) || v == 0x20 || v == 0x85 || v == 0xA0 || v == 0x1680 || (0x2000 <= v
        && v <= 0x200A) || v == 0x2028 || v == 0x2029 || v == 0x202F || v == 0x205F || v == 0x3000
}

/// A longer stretch of a text takes at least as many bytes as a shorter one
/// that starts at the same place.
pub proof fn utf8_len_grows(s: Seq<char>, lo: int, mid: int, hi: int)
    requires
        0 <= lo <= mid <= hi <= s.len(),
    ensures
        utf8_len(s.subrange(lo, mid)) <= utf8_len(s.subrange(lo, hi)),
    decreases hi - mid,
{
    if mid < hi {
        utf8_len_grows(s, lo, mid, hi - 1);
        assert(s.subrange(lo, hi).drop_last() =~= s.subrange(lo, hi - 1));
    }
}

/// Whether the trimmed text is at least `least` bytes long.
fn trimmed_at_least(v: &Vec<char>, least: usize) -> (r: bool)
    requires
        least <= 1024,
    ensures
        r == (utf8_len(trimmed(v@)) >= least),
{
    let n = v.len();
    let mut lo: usize = 0;
    while lo < n && char_is_space(v[lo])
        invariant
            lo <= n,
            n == v@.len(),
            first_kept(v@, 0) == first_kept(v@, lo as int),
        decreases n - lo,
    {
        lo += 1;
    }
    let mut hi: usize = n;
    while hi > lo && char_is_space(v[hi - 1])
        invariant
            lo <= hi <= n,
            n == v@.len(),
            last_kept(v@, lo as int, n as int) == last_kept(v@, lo as int, hi as int),
        decreases hi - lo,
    {
        hi -= 1;
    }
    let mut i: usize = lo;
    let mut bytes: usize = 0;
    while i < hi && bytes < least
        invariant
            lo <= i <= hi <= n,
            n == v@.len(),
            least <= 1024,
            bytes == utf8_len(v@.subrange(lo as int, i as int)),
            bytes < least + 4,
        decreases hi - i,
    {
        let c: u32 = v[i] as u32;
        let w: usize = if c < 0x80 {
            1
        } else if c < 0x800 {
            2
        } else if c < 0x10000 {
            3
        } else {
            4
        };
        proof {
            assert(v@.subrange(lo as int, i + 1).drop_last() =~= v@.subrange(lo as int, i as int));
        }
        bytes += w;
        i += 1;
    }
    proof {
        utf8_len_grows(v@, lo as int, i as int, hi as int);
    }
    bytes >= least
}

/// Validate an email address format.
pub fn validate_email(email: &str) -> (r: bool)
    ensures
        r == email_shape(email@),
{
    let v = chars_of(email);
    let n = v.len();
    let mut at: usize = 0;
    while at < n && v[at] != '@'
        invariant
            at <= n,
            n == v@.len(),
            forall|j: int| 0 <= j < at ==> v@[j] != '@',
        decreases n - at,
    {
        at += 1;
    }
    if at == 0 || at >= n - 1 {
        return false;
    }
    let mut k: usize = at + 1;
    while k < n
        invariant
            at < k <= n,
            n == v@.len(),
            v@ == email@,
            v@[at as int] == '@',
            forall|j: int| at < j < k ==> v@[j] != '@',
        decreases n - k,
    {
        if v[k] == '@' {
            return false;
        }
        k += 1;
    }
    let long_enough = trimmed_at_least(&v, 5);
    long_enough
}

/// Validate that a string is not empty after trimming.
pub fn validate_not_empty(s: &str) -> (r: bool)
    ensures
        r == !is_blank(s@),
{
    let v = chars_of(s);
    let n = v.len();
    let mut i: usize = 0;
    while i < n
        invariant
            i <= n,
            n == v@.len(),
            v@ == s@,
            forall|j: int| 0 <= j < i ==> is_space(v@[j]),
        decreases n - i,
    {
        if !char_is_space(v[i]) {
            return true;
        }
        i += 1;
    }
    false
}

} // verus!
