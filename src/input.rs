use vstd::prelude::*;

verus! {

/// ASCII whitespace: space, tab, line feed, vertical tab, form feed, carriage return.
pub open spec fn is_blank(b: u8) -> bool {
    b == 32 || (9 <= b && b <= 13)
}

/// The UTF-8 encoding of U+0085 or U+00A0.
pub open spec fn is_blank2(a: u8, b: u8) -> bool {
    a == 0xC2 && (b == 0x85 || b == 0xA0)
}

/// The UTF-8 encoding of U+1680, U+2000..=U+200A, U+2028, U+2029, U+202F,
/// U+205F or U+3000.
pub open spec fn is_blank3(a: u8, b: u8, c: u8) -> bool {
    (a == 0xE1 && b == 0x9A && c == 0x80) || (a == 0xE2 && b == 0x80 && ((0x80 <= c && c <= 0x8A)
        || c == 0xA8 || c == 0xA9 || c == 0xAF)) || (a == 0xE2 && b == 0x81 && c == 0x9F) || (a
        == 0xE3 && b == 0x80 && c == 0x80)
}

/// Length in bytes of the whitespace character (Unicode White_Space, in UTF-8)
/// that `s` starts with; 0 when it starts with none.
pub open spec fn leading_blank(s: Seq<u8>) -> int {
    if s.len() >= 1 && is_blank(s[0]) {
        1
    } else if s.len() >= 2 && is_blank2(s[0], s[1]) {
        2
    } else if s.len() >= 3 && is_blank3(s[0], s[1], s[2]) {
        3
    } else {
        0
    }
}

/// Length in bytes of the whitespace character that `s` ends with; 0 when it
/// ends with none.
pub open spec fn trailing_blank(s: Seq<u8>) -> int {
    let n = s.len() as int;
    if n >= 1 && is_blank(s[n - 1]) {
        1
    } else if n >= 2 && is_blank2(s[n - 2], s[n - 1]) {
        2
    } else if n >= 3 && is_blank3(s[n - 3], s[n - 2], s[n - 1]) {
        3
    } else {
        0
    }
}

/// `s` without its leading whitespace.
pub open spec fn trim_front(s: Seq<u8>) -> Seq<u8>
    decreases s.len(),
{
    if leading_blank(s) > 0 {
        trim_front(s.subrange(leading_blank(s), s.len() as int))
    } else {
        s
    }
}

/// `s` without its trailing whitespace.
pub open spec fn trim_back(s: Seq<u8>) -> Seq<u8>
    decreases s.len(),
{
    if trailing_blank(s) > 0 {
        trim_back(s.subrange(0, s.len() - trailing_blank(s)))
    } else {
        s
    }
}

/// `s` without leading or trailing whitespace: every Unicode White_Space
/// character, in its UTF-8 encoding, is cut from both ends.
pub open spec fn trimmed(s: Seq<u8>) -> Seq<u8> {
    trim_back(trim_front(s))
}

/// The bytes of the word `resign`.
pub open spec fn resign_word() -> Seq<u8> {
    seq![114u8, 101u8, 115u8, 105u8, 103u8, 110u8]
}

pub open spec fn is_file(b: u8) -> bool {
    97 <= b && b <= 104
}

pub open spec fn is_rank(b: u8) -> bool {
    49 <= b && b <= 56
}

/// A move written as two squares in algebraic form separated by one space,
/// such as `e2 e4`: file letter `a`..`h` (0..8), rank digit `1`..`8` (0..8).
pub open spec fn move_of(t: Seq<u8>) -> Option<([usize; 2], [usize; 2])> {
    if t.len() == 5 && t[2] == 32 && is_file(t[0]) && is_rank(t[1]) && is_file(t[3]) && is_rank(
        t[4],
    ) {
        Some(
            (
                [(t[0] - 97) as usize, (t[1] - 49) as usize],
                [(t[3] - 97) as usize, (t[4] - 49) as usize],
            ),
        )
    } else {
        None
    }
}

/// Length of the whitespace character at the start of `bytes[lo..hi]`.
fn leading_blank_at(bytes: &[u8], lo: usize, hi: usize) -> (r: usize)
    requires
        lo <= hi <= bytes@.len(),
    ensures
        r == leading_blank(bytes@.subrange(lo as int, hi as int)),
{
    let ghost s = bytes@.subrange(lo as int, hi as int);
    let n = hi - lo;
    if n >= 1 {
        let a = bytes[lo];
        assert(a == s[0]);
        if a == 32 || (9 <= a && a <= 13) {
            return 1;
        }
        if n >= 2 {
            let b = bytes[lo + 1];
            assert(b == s[1]);
            if a == 0xC2 && (b == 0x85 || b == 0xA0) {
                return 2;
            }
            if n >= 3 {
                let c = bytes[lo + 2];
                assert(c == s[2]);
                if (a == 0xE1 && b == 0x9A && c == 0x80) || (a == 0xE2 && b == 0x80 && ((0x80 <= c
                    && c <= 0x8A) || c == 0xA8 || c == 0xA9 || c == 0xAF)) || (a == 0xE2 && b
                    == 0x81 && c == 0x9F) || (a == 0xE3 && b == 0x80 && c == 0x80) {
                    return 3;
                }
            }
        }
    }
    0
}

/// Length of the whitespace character at the end of `bytes[lo..hi]`.
fn trailing_blank_at(bytes: &[u8], lo: usize, hi: usize) -> (r: usize)
    requires
        lo <= hi <= bytes@.len(),
    ensures
        r == trailing_blank(bytes@.subrange(lo as int, hi as int)),
{
    let ghost s = bytes@.subrange(lo as int, hi as int);
    let n = hi - lo;
    if n >= 1 {
        let c = bytes[hi - 1];
        assert(c == s[n - 1]);
        if c == 32 || (9 <= c && c <= 13) {
            return 1;
        }
        if n >= 2 {
            let b = bytes[hi - 2];
            assert(b == s[n - 2]);
            if b == 0xC2 && (c == 0x85 || c == 0xA0) {
                return 2;
            }
            if n >= 3 {
                let a = bytes[hi - 3];
                assert(a == s[n - 3]);
                if (a == 0xE1 && b == 0x9A && c == 0x80) || (a == 0xE2 && b == 0x80 && ((0x80 <= c
                    && c <= 0x8A) || c == 0xA8 || c == 0xA9 || c == 0xAF)) || (a == 0xE2 && b
                    == 0x81 && c == 0x9F) || (a == 0xE3 && b == 0x80 && c == 0x80) {
                    return 3;
                }
            }
        }
    }
    0
}

/// Bounds `(lo, hi)` of `bytes` once leading and trailing whitespace is cut.
pub fn trim_bounds(bytes: &[u8]) -> (r: (usize, usize))
    ensures
        r.0 <= r.1 <= bytes@.len(),
        bytes@.subrange(r.0 as int, r.1 as int) == trimmed(bytes@),
{
    let n = bytes.len();
    let mut lo: usize = 0;
    assert(bytes@.subrange(0, n as int) =~= bytes@);
    let mut k = leading_blank_at(bytes, lo, n);
    while k > 0
        invariant
            n == bytes@.len(),
            lo <= n,
            k == leading_blank(bytes@.subrange(lo as int, n as int)),
            trim_front(bytes@) == trim_front(bytes@.subrange(lo as int, n as int)),
        decreases n - lo,
    {
        assert(bytes@.subrange(lo as int, n as int).subrange(k as int, n - lo) =~= bytes@.subrange(
            lo + k,
            n as int,
        ));
        lo = lo + k;
        k = leading_blank_at(bytes, lo, n);
    }
    assert(trim_front(bytes@) == bytes@.subrange(lo as int, n as int));
    let mut hi: usize = n;
    let mut k = trailing_blank_at(bytes, lo, hi);
    while k > 0
        invariant
            n == bytes@.len(),
            lo <= hi <= n,
            k == trailing_blank(bytes@.subrange(lo as int, hi as int)),
            trimmed(bytes@) == trim_back(bytes@.subrange(lo as int, hi as int)),
        decreases hi - lo,
    {
        assert(bytes@.subrange(lo as int, hi as int).subrange(0, hi - lo - k) =~= bytes@.subrange(
            lo as int,
            hi - k,
        ));
        hi = hi - k;
        k = trailing_blank_at(bytes, lo, hi);
    }
    (lo, hi)
}

/// Reads a move such as `e2 e4` from the bytes `t`.
pub fn parse_move(t: &[u8], lo: usize, hi: usize) -> (r: Option<([usize; 2], [usize; 2])>)
    requires
        lo <= hi <= t@.len(),
    ensures
        r == move_of(t@.subrange(lo as int, hi as int)),
{
    let ghost s = t@.subrange(lo as int, hi as int);
    if hi - lo != 5 {
        return None;
    }
    let f1 = t[lo];
    let r1 = t[lo + 1];
    let sp = t[lo + 2];
    let f2 = t[lo + 3];
    let r2 = t[lo + 4];
    assert(f1 == s[0] && r1 == s[1] && sp == s[2] && f2 == s[3] && r2 == s[4]);
    if sp == 32 && 97 <= f1 && f1 <= 104 && 49 <= r1 && r1 <= 56 && 97 <= f2 && f2 <= 104 && 49
        <= r2 && r2 <= 56 {
        Some(
            (
                [(f1 - 97) as usize, (r1 - 49) as usize],
                [(f2 - 97) as usize, (r2 - 49) as usize],
            ),
        )
    } else {
        None
    }
}

/// The bytes `t[lo..hi]` spell `resign`.
pub fn is_resign(t: &[u8], lo: usize, hi: usize) -> (r: bool)
    requires
        lo <= hi <= t@.len(),
    ensures
        r == (t@.subrange(lo as int, hi as int) == resign_word()),
{
    let ghost s = t@.subrange(lo as int, hi as int);
    if hi - lo != 6 {
        assert(s.len() != resign_word().len());
        return false;
    }
    let r = t[lo] == 114 && t[lo + 1] == 101 && t[lo + 2] == 115 && t[lo + 3] == 105 && t[lo + 4]
        == 103 && t[lo + 5] == 110;
    if r {
        assert(s =~= resign_word());
    } else {
        assert(s != resign_word()) by {
            if s == resign_word() {
                assert(s[0] == 114 && s[1] == 101 && s[2] == 115 && s[3] == 105 && s[4] == 103
                    && s[5] == 110);
            }
        }
    }
    r
}

} // verus!
