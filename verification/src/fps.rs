//! Frame-rate parsing.  The inspection tool reports a frame rate as a
//! rational string such as `24000/1001`; the parser keeps it as an exact
//! rational so that no floating point enters the library.

use vstd::prelude::*;
use vstd::string::StrSliceExecFns;
use crate::text::{spec_is_digits, spec_digits_val, parse_u64};

verus! {

/// A frame rate as an exact rational `num / den`, with `den >= 1`.
/// A zero numerator stands for an unknown or malformed rate.
#[derive(Clone, Copy, Debug, PartialEq, Eq, Structural)]
pub struct Fps {
    pub num: u64,
    pub den: u64,
}

impl Fps {
    /// The denominator is positive, so the rational is meaningful.
    pub open spec fn wf(self) -> bool {
        self.den >= 1
    }
}

/// `k` is the position of the only `/` in `s`.
pub open spec fn single_slash_at(s: Seq<char>, k: int) -> bool {
    &&& 0 <= k < s.len()
    &&& s[k] == '/'
    &&& forall|j: int| 0 <= j < s.len() && j != k ==> s[j] != '/'
}

/// The value a numerator part denotes: its digits, or zero when it is
/// malformed or out of range.
pub open spec fn spec_part_num(part: Seq<char>) -> nat {
    if spec_is_digits(part) && spec_digits_val(part) <= u64::MAX {
        spec_digits_val(part)
    } else {
        0
    }
}

/// The frame rate a rational string denotes: the string must split as
/// `num/den` around a single slash, and the denominator must be a positive
/// digit string.  A malformed numerator counts as zero; a malformed or zero
/// denominator, no slash, or several slashes all give the zero rate.
pub open spec fn spec_parse_fps(s: Seq<char>) -> Fps {
    if exists|k: int| single_slash_at(s, k) {
        let k = choose|k: int| single_slash_at(s, k);
        let den_part = s.subrange(k + 1, s.len() as int);
        if spec_is_digits(den_part) && 1 <= spec_digits_val(den_part) <= u64::MAX {
            Fps {
                num: spec_part_num(s.subrange(0, k)) as u64,
                den: spec_digits_val(den_part) as u64,
            }
        } else {
            Fps { num: 0, den: 1 }
        }
    } else {
        Fps { num: 0, den: 1 }
    }
}

/// Parses a `num/den` rational frame-rate string, as
/// [`spec_parse_fps`] describes.
pub fn parse_fps(s: &str) -> (r: Fps)
    ensures
        r == spec_parse_fps(s@),
        r.wf(),
{
    let len = s.unicode_len();
    let mut slash: Option<usize> = None;
    let mut several = false;
    let mut i: usize = 0;
    while i < len
        invariant
            len == s@.len(),
            i <= len,
            slash is None ==> forall|j: int| 0 <= j < i ==> s@[j] != '/',
            slash matches Some(k) ==> 0 <= k < i && s@[k as int] == '/' && (!several
                ==> forall|j: int| 0 <= j < i && j != k ==> s@[j] != '/'),
            several ==> exists|k1: int, k2: int|
                0 <= k1 < k2 < i && s@[k1] == '/' && s@[k2] == '/',
        decreases len - i,
    {
        if s.get_char(i) == '/' {
            if slash.is_none() {
                slash = Some(i);
            } else {
                several = true;
            }
        }
        i = i + 1;
    }
    if several {
        proof {
            let (k1, k2) = choose|k1: int, k2: int|
                0 <= k1 < k2 < len && s@[k1] == '/' && s@[k2] == '/';
            assert forall|k: int| !single_slash_at(s@, k) by {
                if single_slash_at(s@, k) {
                    assert(k1 == k && k2 == k);
                }
            }
        }
        return Fps { num: 0, den: 1 };
    }
    match slash {
        None => {
            proof {
                assert(forall|k: int| !single_slash_at(s@, k));
            }
            Fps { num: 0, den: 1 }
        },
        Some(k) => {
            proof {
                assert(single_slash_at(s@, k as int));
                let kk = choose|k2: int| single_slash_at(s@, k2);
                assert(kk == k as int);
            }
            let before = s.substring_char(0, k);
            let after = s.substring_char(k + 1, len);
            let den = match parse_u64(after) {
                Some(v) => v,
                None => {
                    return Fps { num: 0, den: 1 };
                },
            };
            if den == 0 {
                return Fps { num: 0, den: 1 };
            }
            let num = match parse_u64(before) {
                Some(v) => v,
                None => 0,
            };
            Fps { num, den }
        },
    }
}

} // verus!
