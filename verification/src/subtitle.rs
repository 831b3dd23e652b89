//! Timed-caption file contents.  A rendered segment with caption text gets a
//! one-cue caption file: a sequential index line, a `start --> end` timestamp
//! line starting at zero and ending at the segment duration (`00:MM:SS,000`),
//! and the caption text.

use vstd::prelude::*;
use vstd::string::StringExecFns;
use crate::text::{spec_two_digits, two_digits};

verus! {

/// The full text of a one-cue caption file for the given caption text and
/// segment duration in whole seconds.
pub open spec fn spec_srt_content(text: Seq<char>, duration_secs: nat) -> Seq<char> {
    "1\n00:00:00,000 --> 00:"@ + spec_two_digits(duration_secs / 60) + ":"@ + spec_two_digits(
        duration_secs % 60,
    ) + ",000\n"@ + text + "\n"@
}

/// Builds the caption-file text, as [`spec_srt_content`] describes.
pub fn srt_content(text: &str, duration_secs: u64) -> (r: String)
    ensures
        r@ == spec_srt_content(text@, duration_secs as nat),
{
    let mut s = String::from_str("1\n00:00:00,000 --> 00:");
    let minutes = two_digits(duration_secs / 60);
    let seconds = two_digits(duration_secs % 60);
    s.append(minutes.as_str());
    s.append(":");
    s.append(seconds.as_str());
    s.append(",000\n");
    s.append(text);
    s.append("\n");
    s
}

} // verus!
