//! Substring matching over character sequences, used to classify advertised
//! peripheral names during discovery, and the digit rendering behind the
//! display forms of connection info.

use vstd::prelude::*;
use vstd::string::StringExecFns;

verus! {

/// The characters of one digit with value `n`, hexadecimal lowercase.
pub open spec fn digit_seq(n: int) -> Seq<char> {
    if n == 0 {
        "0"@
    } else if n == 1 {
        "1"@
    } else if n == 2 {
        "2"@
    } else if n == 3 {
        "3"@
    } else if n == 4 {
        "4"@
    } else if n == 5 {
        "5"@
    } else if n == 6 {
        "6"@
    } else if n == 7 {
        "7"@
    } else if n == 8 {
        "8"@
    } else if n == 9 {
        "9"@
    } else if n == 10 {
        "a"@
    } else if n == 11 {
        "b"@
    } else if n == 12 {
        "c"@
    } else if n == 13 {
        "d"@
    } else if n == 14 {
        "e"@
    } else {
        "f"@
    }
}

/// One digit as text.
fn digit_str(n: u16) -> (r: &'static str)
    requires
        n < 16,
    ensures
        r@ == digit_seq(n as int),
{
    match n {
        0 => "0",
        1 => "1",
        2 => "2",
        3 => "3",
        4 => "4",
        5 => "5",
        6 => "6",
        7 => "7",
        8 => "8",
        9 => "9",
        10 => "a",
        11 => "b",
        12 => "c",
        13 => "d",
        14 => "e",
        _ => "f",
    }
}

/// A sixteen-bit value as four hexadecimal characters, highest digit first.
pub open spec fn hex4_seq(v: int) -> Seq<char> {
    digit_seq((v / 4096) % 16) + digit_seq((v / 256) % 16) + digit_seq((v / 16) % 16) + digit_seq(
        v % 16,
    )
}

/// Render a sixteen-bit value as four hexadecimal characters.
pub fn u16_hex4(v: u16) -> (r: String)
    ensures
        r@ == hex4_seq(v as int),
{
    let mut s = String::new();
    s.append(digit_str((v / 4096) % 16));
    s.append(digit_str((v / 256) % 16));
    s.append(digit_str((v / 16) % 16));
    s.append(digit_str(v % 16));
    assert(s@ =~= hex4_seq(v as int));
    s
}

/// A non-negative value in decimal, highest digit first.
pub open spec fn dec_seq(n: int) -> Seq<char>
    decreases n,
{
    if n < 10 {
        digit_seq(n)
    } else {
        dec_seq(n / 10) + digit_seq(n % 10)
    }
}

/// Render a value in decimal.
pub fn u32_dec(v: u32) -> (r: String)
    ensures
        r@ == dec_seq(v as int),
    decreases v,
{
    if v < 10 {
        let mut s = String::new();
        s.append(digit_str(v as u16));
        assert(s@ =~= dec_seq(v as int));
        s
    } else {
        let mut s = u32_dec(v / 10);
        s.append(digit_str((v % 10) as u16));
        assert(s@ =~= dec_seq(v as int));
        s
    }
}

/// `needle` occurs in `hay` starting at position `i`.
pub open spec fn match_at(hay: Seq<char>, needle: Seq<char>, i: int) -> bool {
    &&& 0 <= i
    &&& i + needle.len() <= hay.len()
    &&& hay.subrange(i, i + needle.len() as int) == needle
}

/// `needle` occurs somewhere in `hay`.
pub open spec fn seq_contains(hay: Seq<char>, needle: Seq<char>) -> bool {
    exists|i: int| match_at(hay, needle, i)
}

/// `needle` occurs in `hay` starting at position `i` (executable form).
fn matches_at(hay: &str, needle: &str, i: usize) -> (r: bool)
    requires
        i + needle@.len() <= hay@.len(),
        hay@.len() <= usize::MAX,
    ensures
        r == match_at(hay@, needle@, i as int),
{
    let m = needle.unicode_len();
    let mut j: usize = 0;
    while j < m
        invariant
            j <= m,
            m == needle@.len(),
            i + m <= hay@.len(),
            hay@.len() <= usize::MAX,
            forall|k: int| 0 <= k < j ==> hay@[i + k] == needle@[k],
        decreases m - j,
    {
        if hay.get_char(i + j) != needle.get_char(j) {
            assert(!match_at(hay@, needle@, i as int)) by {
                if match_at(hay@, needle@, i as int) {
                    assert(hay@.subrange(i as int, i + needle@.len() as int)[j as int]
                        == needle@[j as int]);
                }
            }
            return false;
        }
        j += 1;
    }
    assert(hay@.subrange(i as int, i + needle@.len() as int) =~= needle@);
    true
}

/// Whether `needle` occurs as a substring of `hay`, by characters.
pub fn str_contains(hay: &str, needle: &str) -> (r: bool)
    ensures
        r == seq_contains(hay@, needle@),
{
    let n = hay.unicode_len();
    let m = needle.unicode_len();
    if m > n {
        assert(forall|i: int| !match_at(hay@, needle@, i));
        return false;
    }
    if m == 0 {
        assert(hay@.subrange(0, 0) =~= needle@);
        assert(match_at(hay@, needle@, 0));
        return true;
    }
    let mut i: usize = 0;
    while i <= n - m
        invariant
            1 <= m <= n,
            n == hay@.len(),
            m == needle@.len(),
            i <= n - m + 1,
            forall|k: int| 0 <= k < i ==> !match_at(hay@, needle@, k),
        decreases n - i,
    {
        if matches_at(hay, needle, i) {
            assert(match_at(hay@, needle@, i as int));
            return true;
        }
        i += 1;
    }
    assert forall|k: int| !match_at(hay@, needle@, k) by {
        if 0 <= k && k + needle@.len() <= hay@.len() {
            assert(k < i);
        }
    }
    false
}

} // verus!
