//! UTF-8 validity of a byte sequence, as a spec and a verified checker.
//!
//! The definition follows the encoding exactly: one-byte sequences are
//! `0x00..=0x7F`; two-byte leads are `0xC2..=0xDF`; three-byte leads are
//! `0xE0..=0xEF` with the overlong range under `0xE0` and the surrogate
//! range under `0xED` cut out; four-byte leads are `0xF0..=0xF4` with the
//! overlong range under `0xF0` and everything past `U+10FFFF` under `0xF4`
//! cut out. Continuation bytes are `0x80..=0xBF`.

use vstd::prelude::*;

verus! {

/// A continuation byte.
pub open spec fn is_cont(b: u8) -> bool {
    128 <= b <= 191
}

/// `s` is valid UTF-8 from offset `i` to its end.
pub open spec fn is_utf8_from(s: Seq<u8>, i: int) -> bool
    decreases s.len() - i,
{
    if i >= s.len() {
        true
    } else {
        let b = s[i];
        if b <= 127 {
            is_utf8_from(s, i + 1)
        } else if 194 <= b <= 223 {
            &&& i + 1 < s.len()
            &&& is_cont(s[i + 1])
            &&& is_utf8_from(s, i + 2)
        } else if b == 224 {
            &&& i + 2 < s.len()
            &&& 160 <= s[i + 1] <= 191
            &&& is_cont(s[i + 2])
            &&& is_utf8_from(s, i + 3)
        } else if 225 <= b <= 236 || b == 238 || b == 239 {
            &&& i + 2 < s.len()
            &&& is_cont(s[i + 1])
            &&& is_cont(s[i + 2])
            &&& is_utf8_from(s, i + 3)
        } else if b == 237 {
            &&& i + 2 < s.len()
            &&& 128 <= s[i + 1] <= 159
            &&& is_cont(s[i + 2])
            &&& is_utf8_from(s, i + 3)
        } else if b == 240 {
            &&& i + 3 < s.len()
            &&& 144 <= s[i + 1] <= 191
            &&& is_cont(s[i + 2])
            &&& is_cont(s[i + 3])
            &&& is_utf8_from(s, i + 4)
        } else if 241 <= b <= 243 {
            &&& i + 3 < s.len()
            &&& is_cont(s[i + 1])
            &&& is_cont(s[i + 2])
            &&& is_cont(s[i + 3])
            &&& is_utf8_from(s, i + 4)
        } else if b == 244 {
            &&& i + 3 < s.len()
            &&& 128 <= s[i + 1] <= 143
            &&& is_cont(s[i + 2])
            &&& is_cont(s[i + 3])
            &&& is_utf8_from(s, i + 4)
        } else {
            false
        }
    }
}

/// The whole of `s` is valid UTF-8.
pub open spec fn is_utf8(s: Seq<u8>) -> bool {
    is_utf8_from(s, 0)
}

/// Tests whether `b` is a continuation byte.
fn cont(b: u8) -> (r: bool)
    ensures
        r == is_cont(b),
{
    128 <= b && b <= 191
}

/// Checks whether `s` is valid UTF-8.
pub fn check_utf8(s: &[u8]) -> (r: bool)
    ensures
        r == is_utf8(s@),
{
    let n = s.len();
    let mut i: usize = 0;
    while i < n
        invariant
            i <= n,
            n == s@.len(),
            is_utf8(s@) == is_utf8_from(s@, i as int),
        decreases n - i,
    {
        let b = s[i];
        if b <= 127 {
            i += 1;
        } else if 194 <= b && b <= 223 {
            if !(i + 1 < n && cont(s[i + 1])) {
                return false;
            }
            i += 2;
        } else if b == 224 {
            if !(n - i > 2 && 160 <= s[i + 1] && s[i + 1] <= 191 && cont(s[i + 2])) {
                return false;
            }
            i += 3;
        } else if (225 <= b && b <= 236) || b == 238 || b == 239 {
            if !(n - i > 2 && cont(s[i + 1]) && cont(s[i + 2])) {
                return false;
            }
            i += 3;
        } else if b == 237 {
            if !(n - i > 2 && 128 <= s[i + 1] && s[i + 1] <= 159 && cont(s[i + 2])) {
                return false;
            }
            i += 3;
        } else if b == 240 {
            if !(n - i > 3 && 144 <= s[i + 1] && s[i + 1] <= 191 && cont(s[i + 2]) && cont(
                s[i + 3],
            )) {
                return false;
            }
            i += 4;
        } else if 241 <= b && b <= 243 {
            if !(n - i > 3 && cont(s[i + 1]) && cont(s[i + 2]) && cont(s[i + 3])) {
                return false;
            }
            i += 4;
        } else if b == 244 {
            if !(n - i > 3 && 128 <= s[i + 1] && s[i + 1] <= 143 && cont(s[i + 2]) && cont(
                s[i + 3],
            )) {
                return false;
            }
            i += 4;
        } else {
            return false;
        }
    }
    true
}

} // verus!
