//! Single-shot frame grabs: evenly spaced key-frame positions and the
//! argument lists of the extraction jobs, including the thumbnail grab.

use vstd::prelude::*;
use vstd::string::StringExecFns;
use crate::text::{millis_display, spec_millis_display};

verus! {

/// Key-frame position `j` (counted from zero) of `count` frames over a clip:
/// the clip divided into `count + 1` even intervals, one frame at each
/// interior boundary.
pub open spec fn spec_frame_position(duration_ms: nat, count: nat, j: int) -> nat {
    (duration_ms * (j + 1) / (count as int + 1)) as nat
}

proof fn lemma_frame_position_fits(duration_ms: nat, count: nat, j: int)
    requires
        0 <= j < count,
    ensures
        spec_frame_position(duration_ms, count, j) <= duration_ms,
{
    vstd::arithmetic::mul::lemma_mul_inequality(j + 1, count as int + 1, duration_ms as int);
    vstd::arithmetic::div_mod::lemma_div_is_ordered(
        duration_ms as int * (j + 1),
        duration_ms as int * (count as int + 1),
        count as int + 1,
    );
    vstd::arithmetic::div_mod::lemma_div_by_multiple(duration_ms as int, count as int + 1);
    vstd::arithmetic::mul::lemma_mul_is_commutative(duration_ms as int, count as int + 1);
    vstd::arithmetic::mul::lemma_mul_is_commutative(duration_ms as int, j + 1);
    assert(duration_ms * (j + 1) == duration_ms as int * (j + 1));
}

/// Computes the `count` evenly spaced key-frame positions of a clip, in
/// milliseconds, as [`spec_frame_position`] describes.
pub fn key_frame_positions(duration_ms: u64, count: u32) -> (r: Vec<u64>)
    ensures
        r@.len() == count as nat,
        forall|j: int|
            0 <= j < count ==> r@[j] as nat == spec_frame_position(
                duration_ms as nat,
                count as nat,
                j,
            ),
{
    let mut r: Vec<u64> = Vec::new();
    let mut j: u32 = 0;
    while j < count
        invariant
            j <= count,
            r@.len() == j as nat,
            forall|m: int|
                0 <= m < j ==> r@[m] as nat == spec_frame_position(
                    duration_ms as nat,
                    count as nat,
                    m,
                ),
        decreases count - j,
    {
        proof {
            lemma_frame_position_fits(duration_ms as nat, count as nat, j as int);
            vstd::arithmetic::mul::lemma_mul_upper_bound(
                duration_ms as int,
                u64::MAX as int,
                j as int + 1,
                u32::MAX as int + 1,
            );
        }
        let pos = ((duration_ms as u128) * ((j as u128) + 1) / ((count as u128) + 1)) as u64;
        r.push(pos);
        j = j + 1;
    }
    r
}

/// The argument list of one key-frame grab: seek to the position, take one
/// frame at quality two, write an image file.
pub open spec fn spec_key_frame_args(
    input: Seq<char>,
    position_ms: nat,
    output: Seq<char>,
) -> Seq<Seq<char>> {
    seq![
        "-ss"@,
        spec_millis_display(position_ms),
        "-i"@,
        input,
        "-vframes"@,
        "1"@,
        "-q:v"@,
        "2"@,
        "-f"@,
        "image2"@,
        output,
    ]
}

/// Builds one key-frame grab's argument list, as
/// [`spec_key_frame_args`] describes.
pub fn key_frame_args(input: &str, position_ms: u64, output: &str) -> (r: Vec<String>)
    ensures
        r.deep_view() == spec_key_frame_args(input@, position_ms as nat, output@),
{
    let mut r: Vec<String> = Vec::new();
    r.push(String::from_str("-ss"));
    r.push(millis_display(position_ms));
    r.push(String::from_str("-i"));
    r.push(String::from_str(input));
    r.push(String::from_str("-vframes"));
    r.push(String::from_str("1"));
    r.push(String::from_str("-q:v"));
    r.push(String::from_str("2"));
    r.push(String::from_str("-f"));
    r.push(String::from_str("image2"));
    r.push(String::from_str(output));
    proof {
        assert(r.deep_view() =~~= spec_key_frame_args(input@, position_ms as nat, output@));
    }
    r
}

/// The argument list of a thumbnail grab: one frame at fifteen percent into
/// the clip, scaled to a width of 320.
pub open spec fn spec_thumbnail_args(input: Seq<char>, output: Seq<char>) -> Seq<Seq<char>> {
    seq![
        "-ss"@,
        "15%"@,
        "-i"@,
        input,
        "-vframes"@,
        "1"@,
        "-vf"@,
        "scale=320:-1"@,
        "-q:v"@,
        "2"@,
        "-f"@,
        "image2"@,
        output,
    ]
}

/// Builds the thumbnail grab's argument list, as
/// [`spec_thumbnail_args`] describes.
pub fn thumbnail_args(input: &str, output: &str) -> (r: Vec<String>)
    ensures
        r.deep_view() == spec_thumbnail_args(input@, output@),
{
    let mut r: Vec<String> = Vec::new();
    r.push(String::from_str("-ss"));
    r.push(String::from_str("15%"));
    r.push(String::from_str("-i"));
    r.push(String::from_str(input));
    r.push(String::from_str("-vframes"));
    r.push(String::from_str("1"));
    r.push(String::from_str("-vf"));
    r.push(String::from_str("scale=320:-1"));
    r.push(String::from_str("-q:v"));
    r.push(String::from_str("2"));
    r.push(String::from_str("-f"));
    r.push(String::from_str("image2"));
    r.push(String::from_str(output));
    proof {
        assert(r.deep_view() =~~= spec_thumbnail_args(input@, output@));
    }
    r
}

/// The argument list of the metadata probe: the quiet JSON report with
/// format and stream sections.
pub open spec fn spec_probe_args(input: Seq<char>) -> Seq<Seq<char>> {
    seq![
        "-v"@,
        "quiet"@,
        "-print_format"@,
        "json"@,
        "-show_format"@,
        "-show_streams"@,
        input,
    ]
}

/// Builds the metadata probe's argument list, as
/// [`spec_probe_args`] describes.
pub fn probe_args(input: &str) -> (r: Vec<String>)
    ensures
        r.deep_view() == spec_probe_args(input@),
{
    let mut r: Vec<String> = Vec::new();
    r.push(String::from_str("-v"));
    r.push(String::from_str("quiet"));
    r.push(String::from_str("-print_format"));
    r.push(String::from_str("json"));
    r.push(String::from_str("-show_format"));
    r.push(String::from_str("-show_streams"));
    r.push(String::from_str(input));
    proof {
        assert(r.deep_view() =~~= spec_probe_args(input@));
    }
    r
}

} // verus!
