//! Artifact paths and the temp-path safety convention.
//!
//! Every run mints its artifact file names from a per-run identifier, so that
//! concurrent runs sharing one working directory never collide.  A generic
//! "delete this path" request is honoured only when the path carries a
//! recognizable temp-directory or application-namespace marker.

use vstd::prelude::*;
use vstd::string::StringExecFns;
use crate::text::{contains_seq, contains_str, lemma_dec_is_digits, spec_dec, spec_is_digit, u64_to_dec};

verus! {

/// The application namespace marker used in working-directory names.
pub open spec fn spec_app_marker() -> Seq<char> {
    "blazecut"@
}

/// A path may be deleted on request only when it carries a temp-directory or
/// application-namespace marker in its text.
pub open spec fn spec_safe_temp_path(path: Seq<char>) -> bool {
    contains_seq(path, "temp"@) || contains_seq(path, spec_app_marker())
}

/// Decides whether a deletion request for `path` is acceptable, as
/// [`spec_safe_temp_path`] describes.  A rejected path must not be touched.
pub fn is_safe_temp_path(path: &str) -> (r: bool)
    ensures
        r == spec_safe_temp_path(path@),
{
    contains_str(path, "temp") || contains_str(path, "blazecut")
}

/// Current wall-clock time in milliseconds since the epoch, or zero when the
/// clock reads before the epoch.
///
/// Relies on `std::time::SystemTime::now` and
/// `std::time::SystemTime::duration_since`; the value depends on the clock,
/// so nothing is promised of it.
#[verifier::external_body]
fn now_millis() -> u64 {
    match std::time::SystemTime::now().duration_since(std::time::UNIX_EPOCH) {
        Ok(d) => d.as_millis() as u64,
        Err(_) => 0,
    }
}

/// A fresh identifier drawn from the wall clock: the decimal rendering of
/// some millisecond count, so always one or more digits.
pub fn random_id() -> (r: String)
    ensures
        exists|ms: nat| r@ == spec_dec(ms),
        r@.len() >= 1,
        forall|i: int| 0 <= i < r@.len() ==> spec_is_digit(#[trigger] r@[i]),
{
    let ms = now_millis();
    let r = u64_to_dec(ms);
    proof {
        assert(r@ == spec_dec(ms as nat));
        lemma_dec_is_digits(ms as nat);
    }
    r
}

/// `dir` and `name` joined with a path separator.
pub open spec fn spec_path_join(dir: Seq<char>, name: Seq<char>) -> Seq<char> {
    dir + "/"@ + name
}

/// Joins a directory and a file name, as [`spec_path_join`] describes.
pub fn path_join(dir: &str, name: &str) -> (r: String)
    ensures
        r@ == spec_path_join(dir@, name@),
{
    let mut s = String::from_str(dir);
    s.append("/");
    s.append(name);
    s
}

/// The intermediate artifact path for rendered segment `index` of run
/// `run_id`: `<dir>/segment_<run>_<index>.<format>`.
pub open spec fn spec_segment_artifact(
    dir: Seq<char>,
    run_id: nat,
    index: nat,
    format: Seq<char>,
) -> Seq<char> {
    dir + "/segment_"@ + spec_dec(run_id) + "_"@ + spec_dec(index) + "."@ + format
}

/// Builds the artifact path for one rendered segment, as
/// [`spec_segment_artifact`] describes.
pub fn segment_artifact(dir: &str, run_id: u64, index: u64, format: &str) -> (r: String)
    ensures
        r@ == spec_segment_artifact(dir@, run_id as nat, index as nat, format@),
{
    let mut s = String::from_str(dir);
    s.append("/segment_");
    let run = u64_to_dec(run_id);
    s.append(run.as_str());
    s.append("_");
    let idx = u64_to_dec(index);
    s.append(idx.as_str());
    s.append(".");
    s.append(format);
    s
}

/// The caption file path for segment `index` of run `run_id`:
/// `<dir>/subtitle_<run>_<index>.srt`.
pub open spec fn spec_subtitle_file(dir: Seq<char>, run_id: nat, index: nat) -> Seq<char> {
    dir + "/subtitle_"@ + spec_dec(run_id) + "_"@ + spec_dec(index) + ".srt"@
}

/// Builds the caption file path for one segment, as
/// [`spec_subtitle_file`] describes.
pub fn subtitle_file(dir: &str, run_id: u64, index: u64) -> (r: String)
    ensures
        r@ == spec_subtitle_file(dir@, run_id as nat, index as nat),
{
    let mut s = String::from_str(dir);
    s.append("/subtitle_");
    let run = u64_to_dec(run_id);
    s.append(run.as_str());
    s.append("_");
    let idx = u64_to_dec(index);
    s.append(idx.as_str());
    s.append(".srt");
    s
}

/// The composited artifact path for the adjacent pair starting at `index`:
/// `<dir>/transition_<run>_<index>_<index+1>.<format>`.
pub open spec fn spec_transition_artifact(
    dir: Seq<char>,
    run_id: nat,
    index: nat,
    format: Seq<char>,
) -> Seq<char> {
    dir + "/transition_"@ + spec_dec(run_id) + "_"@ + spec_dec(index) + "_"@ + spec_dec(index + 1)
        + "."@ + format
}

/// Builds the artifact path for one composited pair, as
/// [`spec_transition_artifact`] describes.
pub fn transition_artifact(dir: &str, run_id: u64, index: u64, format: &str) -> (r: String)
    requires
        index < u64::MAX,
    ensures
        r@ == spec_transition_artifact(dir@, run_id as nat, index as nat, format@),
{
    let mut s = String::from_str(dir);
    s.append("/transition_");
    let run = u64_to_dec(run_id);
    s.append(run.as_str());
    s.append("_");
    let idx = u64_to_dec(index);
    s.append(idx.as_str());
    s.append("_");
    let next = u64_to_dec(index + 1);
    s.append(next.as_str());
    s.append(".");
    s.append(format);
    s
}

/// The concatenation manifest path for run `run_id`:
/// `<dir>/segments_<run>.txt`.
pub open spec fn spec_manifest_file(dir: Seq<char>, run_id: nat) -> Seq<char> {
    dir + "/segments_"@ + spec_dec(run_id) + ".txt"@
}

/// Builds the manifest path for one run, as [`spec_manifest_file`] describes.
pub fn manifest_file(dir: &str, run_id: u64) -> (r: String)
    ensures
        r@ == spec_manifest_file(dir@, run_id as nat),
{
    let mut s = String::from_str(dir);
    s.append("/segments_");
    let run = u64_to_dec(run_id);
    s.append(run.as_str());
    s.append(".txt");
    s
}

/// The preview output path for run `run_id`: `<dir>/preview_<run>.mp4`.
pub open spec fn spec_preview_file(dir: Seq<char>, run_id: nat) -> Seq<char> {
    dir + "/preview_"@ + spec_dec(run_id) + ".mp4"@
}

/// Builds the preview output path, as [`spec_preview_file`] describes.
pub fn preview_file(dir: &str, run_id: u64) -> (r: String)
    ensures
        r@ == spec_preview_file(dir@, run_id as nat),
{
    let mut s = String::from_str(dir);
    s.append("/preview_");
    let run = u64_to_dec(run_id);
    s.append(run.as_str());
    s.append(".mp4");
    s
}

/// The caption file path for a preview of run `run_id`:
/// `<dir>/subtitle_<run>.srt`.
pub open spec fn spec_preview_subtitle_file(dir: Seq<char>, run_id: nat) -> Seq<char> {
    dir + "/subtitle_"@ + spec_dec(run_id) + ".srt"@
}

/// Builds the preview caption file path, as
/// [`spec_preview_subtitle_file`] describes.
pub fn preview_subtitle_file(dir: &str, run_id: u64) -> (r: String)
    ensures
        r@ == spec_preview_subtitle_file(dir@, run_id as nat),
{
    let mut s = String::from_str(dir);
    s.append("/subtitle_");
    let run = u64_to_dec(run_id);
    s.append(run.as_str());
    s.append(".srt");
    s
}

/// The on-disk file name of a stored project: `<project_id>.json`.
pub open spec fn spec_project_file_name(project_id: Seq<char>) -> Seq<char> {
    project_id + ".json"@
}

/// Builds a stored project's file name, as
/// [`spec_project_file_name`] describes.
pub fn project_file_name(project_id: &str) -> (r: String)
    ensures
        r@ == spec_project_file_name(project_id@),
{
    let mut s = String::from_str(project_id);
    s.append(".json");
    s
}

/// The thumbnail path for run `run_id`: `<dir>/thumb_<run>.jpg`.
pub open spec fn spec_thumbnail_file(dir: Seq<char>, run_id: nat) -> Seq<char> {
    dir + "/thumb_"@ + spec_dec(run_id) + ".jpg"@
}

/// Builds the thumbnail path, as [`spec_thumbnail_file`] describes.
pub fn thumbnail_file(dir: &str, run_id: u64) -> (r: String)
    ensures
        r@ == spec_thumbnail_file(dir@, run_id as nat),
{
    let mut s = String::from_str(dir);
    s.append("/thumb_");
    let run = u64_to_dec(run_id);
    s.append(run.as_str());
    s.append(".jpg");
    s
}

/// The extracted-frame path for frame `number` (counted from one):
/// `<dir>/frame_<number>.jpg`.
pub open spec fn spec_frame_file(dir: Seq<char>, number: nat) -> Seq<char> {
    dir + "/frame_"@ + spec_dec(number) + ".jpg"@
}

/// Builds one extracted frame's path, as [`spec_frame_file`] describes.
pub fn frame_file(dir: &str, number: u64) -> (r: String)
    ensures
        r@ == spec_frame_file(dir@, number as nat),
{
    let mut s = String::from_str(dir);
    s.append("/frame_");
    let num = u64_to_dec(number);
    s.append(num.as_str());
    s.append(".jpg");
    s
}

} // verus!
