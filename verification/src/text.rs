//! Small verified text utilities: string equality, substring search, and
//! decimal rendering of integers.  The pipeline builds every external-tool
//! command line out of these.

use vstd::prelude::*;
use vstd::string::StrSliceExecFns;
use vstd::string::StringExecFns;

verus! {

/// Character-for-character equality of two string slices.
pub fn str_eq(a: &str, b: &str) -> (r: bool)
    ensures
        r == (a@ == b@),
{
    let alen = a.unicode_len();
    let blen = b.unicode_len();
    if alen != blen {
        return false;
    }
    let mut i: usize = 0;
    while i < alen
        invariant
            alen == a@.len(),
            blen == b@.len(),
            alen == blen,
            i <= alen,
            forall|j: int| 0 <= j < i ==> a@[j] == b@[j],
        decreases alen - i,
    {
        if a.get_char(i) != b.get_char(i) {
            return false;
        }
        i = i + 1;
    }
    proof {
        assert(a@ =~= b@);
    }
    true
}

/// The decimal digit character for a value below ten.
pub open spec fn spec_digit_char(d: int) -> char {
    if d == 0 {
        '0'
    } else if d == 1 {
        '1'
    } else if d == 2 {
        '2'
    } else if d == 3 {
        '3'
    } else if d == 4 {
        '4'
    } else if d == 5 {
        '5'
    } else if d == 6 {
        '6'
    } else if d == 7 {
        '7'
    } else if d == 8 {
        '8'
    } else {
        '9'
    }
}

/// The usual decimal rendering of a natural number, without leading zeros.
pub open spec fn spec_dec(n: nat) -> Seq<char>
    decreases n,
{
    if n < 10 {
        seq![spec_digit_char(n as int)]
    } else {
        spec_dec(n / 10).push(spec_digit_char((n % 10) as int))
    }
}

/// A one-character string slice for a single decimal digit.
fn digit_str(d: u64) -> (r: &'static str)
    requires
        d < 10,
    ensures
        r@ == seq![spec_digit_char(d as int)],
{
    let r: &'static str = if d == 0 {
        "0"
    } else if d == 1 {
        "1"
    } else if d == 2 {
        "2"
    } else if d == 3 {
        "3"
    } else if d == 4 {
        "4"
    } else if d == 5 {
        "5"
    } else if d == 6 {
        "6"
    } else if d == 7 {
        "7"
    } else if d == 8 {
        "8"
    } else {
        "9"
    };
    proof {
        reveal_strlit("0");
        reveal_strlit("1");
        reveal_strlit("2");
        reveal_strlit("3");
        reveal_strlit("4");
        reveal_strlit("5");
        reveal_strlit("6");
        reveal_strlit("7");
        reveal_strlit("8");
        reveal_strlit("9");
        assert(r@ =~= seq![spec_digit_char(d as int)]);
    }
    r
}

/// Renders a number in decimal.
pub fn u64_to_dec(n: u64) -> (r: String)
    ensures
        r@ == spec_dec(n as nat),
    decreases n,
{
    if n < 10 {
        String::from_str(digit_str(n))
    } else {
        let mut s = u64_to_dec(n / 10);
        s.append(digit_str(n % 10));
        proof {
            assert(s@ =~= spec_dec(n as nat));
        }
        s
    }
}

/// A count of milliseconds rendered as seconds with the shortest decimal
/// fraction: whole seconds print bare (`5000` gives `5`), others keep only the
/// significant fraction digits (`1500` gives `1.5`, `1050` gives `1.05`).
pub open spec fn spec_millis_display(ms: nat) -> Seq<char> {
    let whole = ms / 1000;
    let frac = ms % 1000;
    if frac == 0 {
        spec_dec(whole)
    } else if frac % 100 == 0 {
        spec_dec(whole) + seq!['.', spec_digit_char((frac / 100) as int)]
    } else if frac % 10 == 0 {
        spec_dec(whole) + seq![
            '.',
            spec_digit_char((frac / 100) as int),
            spec_digit_char(((frac / 10) % 10) as int),
        ]
    } else {
        spec_dec(whole) + seq![
            '.',
            spec_digit_char((frac / 100) as int),
            spec_digit_char(((frac / 10) % 10) as int),
            spec_digit_char((frac % 10) as int),
        ]
    }
}

/// Renders a count of milliseconds as seconds, as
/// [`spec_millis_display`] describes.
pub fn millis_display(ms: u64) -> (r: String)
    ensures
        r@ == spec_millis_display(ms as nat),
{
    let whole = ms / 1000;
    let frac = ms % 1000;
    let mut s = u64_to_dec(whole);
    if frac == 0 {
        return s;
    }
    s.append(".");
    proof {
        reveal_strlit(".");
    }
    s.append(digit_str(frac / 100));
    if frac % 100 == 0 {
        proof {
            assert(s@ =~= spec_millis_display(ms as nat));
        }
        return s;
    }
    s.append(digit_str((frac / 10) % 10));
    if frac % 10 == 0 {
        proof {
            assert(s@ =~= spec_millis_display(ms as nat));
        }
        return s;
    }
    s.append(digit_str(frac % 10));
    proof {
        assert(s@ =~= spec_millis_display(ms as nat));
    }
    s
}

/// Decimal rendering padded with a zero to at least two digits.
pub open spec fn spec_two_digits(n: nat) -> Seq<char> {
    if n < 10 {
        seq!['0'] + spec_dec(n)
    } else {
        spec_dec(n)
    }
}

/// Renders a number in decimal, zero-padded to at least two digits.
pub fn two_digits(n: u64) -> (r: String)
    ensures
        r@ == spec_two_digits(n as nat),
{
    if n < 10 {
        let mut s = String::from_str("0");
        proof {
            reveal_strlit("0");
        }
        s.append(digit_str(n));
        proof {
            assert(s@ =~= spec_two_digits(n as nat));
        }
        s
    } else {
        u64_to_dec(n)
    }
}

/// `needle` occurs in `hay` starting at position `i`.
pub open spec fn matches_at(hay: Seq<char>, needle: Seq<char>, i: int) -> bool {
    &&& 0 <= i
    &&& i + needle.len() <= hay.len()
    &&& hay.subrange(i, i + needle.len() as int) == needle
}

/// `needle` occurs somewhere in `hay`.
pub open spec fn contains_seq(hay: Seq<char>, needle: Seq<char>) -> bool {
    exists|i: int| matches_at(hay, needle, i)
}

/// Substring search by direct comparison at each candidate position.
pub fn contains_str(hay: &str, needle: &str) -> (r: bool)
    ensures
        r == contains_seq(hay@, needle@),
{
    let hlen = hay.unicode_len();
    let nlen = needle.unicode_len();
    if nlen > hlen {
        proof {
            assert(forall|i: int| !matches_at(hay@, needle@, i));
        }
        return false;
    }
    if nlen == 0 {
        proof {
            assert(hay@.subrange(0, 0) =~= needle@);
            assert(matches_at(hay@, needle@, 0));
        }
        return true;
    }
    let mut i: usize = 0;
    while i <= hlen - nlen
        invariant
            hlen == hay@.len(),
            nlen == needle@.len(),
            0 < nlen <= hlen,
            i <= hlen - nlen + 1,
            forall|k: int| 0 <= k < i ==> !matches_at(hay@, needle@, k),
        decreases hlen - nlen + 1 - i,
    {
        let mut j: usize = 0;
        let mut hit = true;
        while j < nlen
            invariant
                hlen == hay@.len(),
                nlen == needle@.len(),
                i + nlen <= hlen,
                j <= nlen,
                hit ==> forall|m: int| 0 <= m < j ==> hay@[i + m] == needle@[m],
                !hit ==> !matches_at(hay@, needle@, i as int),
            decreases nlen - j,
        {
            if hay.get_char(i + j) != needle.get_char(j) {
                proof {
                    assert(hay@.subrange(i as int, i + nlen as int)[j as int] != needle@[j as int]);
                }
                hit = false;
                j = nlen;
            } else {
                j = j + 1;
            }
        }
        if hit {
            proof {
                assert(hay@.subrange(i as int, i + nlen as int) =~= needle@);
                assert(matches_at(hay@, needle@, i as int));
            }
            return true;
        }
        i = i + 1;
    }
    proof {
        assert forall|k: int| !matches_at(hay@, needle@, k) by {
            if 0 <= k && k + needle@.len() <= hay@.len() {
                assert(k < i);
            }
        }
    }
    false
}

/// The character is a decimal digit.
pub open spec fn spec_is_digit(c: char) -> bool {
    '0' <= c && c <= '9'
}

/// The sequence is one or more decimal digits.
pub open spec fn spec_is_digits(s: Seq<char>) -> bool {
    s.len() > 0 && forall|i: int| 0 <= i < s.len() ==> spec_is_digit(#[trigger] s[i])
}

/// Every character of a decimal rendering is a digit, and there is at
/// least one.
pub proof fn lemma_dec_is_digits(n: nat)
    ensures
        spec_dec(n).len() >= 1,
        forall|i: int| 0 <= i < spec_dec(n).len() ==> spec_is_digit(#[trigger] spec_dec(n)[i]),
    decreases n,
{
    if n >= 10 {
        lemma_dec_is_digits(n / 10);
        assert forall|i: int| 0 <= i < spec_dec(n).len() implies spec_is_digit(
            #[trigger] spec_dec(n)[i],
        ) by {
            if i < spec_dec(n / 10).len() {
                assert(spec_dec(n)[i] == spec_dec(n / 10)[i]);
            }
        }
    }
}

/// The numeric value of a digit character.
pub open spec fn spec_char_digit(c: char) -> nat {
    ((c as int) - ('0' as int)) as nat
}

/// The numeric value of a digit sequence, most significant digit first.
pub open spec fn spec_digits_val(s: Seq<char>) -> nat
    decreases s.len(),
{
    if s.len() == 0 {
        0
    } else {
        spec_digits_val(s.drop_last()) * 10 + spec_char_digit(s.last())
    }
}

proof fn lemma_digits_val_prefix_grows(s: Seq<char>, i: int, j: int)
    requires
        0 <= i <= j <= s.len(),
    ensures
        spec_digits_val(s.take(i)) <= spec_digits_val(s.take(j)),
    decreases j - i,
{
    if i < j {
        lemma_digits_val_prefix_grows(s, i, j - 1);
        assert(s.take(j).drop_last() =~= s.take(j - 1));
        assert(spec_digits_val(s.take(j)) == spec_digits_val(s.take(j - 1)) * 10 + spec_char_digit(s.take(j).last()));
    }
}

/// Parses a string of decimal digits.  Returns the value when the string is
/// one or more digits and the value fits in a `u64`; `None` otherwise.
pub fn parse_u64(s: &str) -> (r: Option<u64>)
    ensures
        r is Some <==> spec_is_digits(s@) && spec_digits_val(s@) <= u64::MAX,
        r is Some ==> r->0 == spec_digits_val(s@),
{
    let len = s.unicode_len();
    if len == 0 {
        return None;
    }
    let mut acc: u64 = 0;
    let mut i: usize = 0;
    while i < len
        invariant
            len == s@.len(),
            0 < len,
            i <= len,
            forall|k: int| 0 <= k < i ==> spec_is_digit(#[trigger] s@[k]),
            acc == spec_digits_val(s@.take(i as int)),
        decreases len - i,
    {
        let c = s.get_char(i);
        if c < '0' || c > '9' {
            return None;
        }
        let d: u64 = (c as u32 as u64) - ('0' as u32 as u64);
        if acc > (u64::MAX - d) / 10 {
            proof {
                assert(s@.take(i + 1).drop_last() =~= s@.take(i as int));
                assert(spec_digits_val(s@.take(i + 1)) == acc * 10 + d);
                lemma_digits_val_prefix_grows(s@, i + 1, len as int);
                assert(s@.take(len as int) =~= s@);
            }
            return None;
        }
        proof {
            assert(s@.take(i + 1).drop_last() =~= s@.take(i as int));
        }
        acc = acc * 10 + d;
        i = i + 1;
    }
    proof {
        assert(s@.take(len as int) =~= s@);
    }
    Some(acc)
}

/// The longest newline-free prefix of `s`: its first line.
pub fn first_line(s: &str) -> (r: String)
    ensures
        r@ == s@.take(r@.len() as int),
        forall|j: int| 0 <= j < r@.len() ==> s@[j] != '\n',
        r@.len() == s@.len() || s@[r@.len() as int] == '\n',
{
    let len = s.unicode_len();
    let mut i: usize = 0;
    while i < len
        invariant
            len == s@.len(),
            i <= len,
            forall|j: int| 0 <= j < i ==> s@[j] != '\n',
        decreases len - i,
    {
        if s.get_char(i) == '\n' {
            let line = s.substring_char(0, i);
            let r = line.to_owned();
            proof {
                assert(r@ =~= s@.take(r@.len() as int));
            }
            return r;
        }
        i = i + 1;
    }
    let r = s.to_owned();
    proof {
        assert(r@ =~= s@.take(r@.len() as int));
    }
    r
}

} // verus!

