//! Encode-profile resolution: maps the requested container format and quality
//! tier to the external tool's codec and bitrate parameters.  A pure table;
//! unknown formats fall back to the H.264 family and unknown quality tiers to
//! the `medium` parameters.

use vstd::prelude::*;
use vstd::string::StringExecFns;
use crate::text::str_eq;

verus! {

/// Resolved encode parameters for one (format, quality) pair.
#[derive(Clone, Debug, PartialEq, Eq)]
pub struct EncodeProfile {
    /// Video codec identifier handed to the external tool.
    pub video_codec: String,
    /// Scale, bitrate and preset parameters, ready for the command line.
    pub video_params: String,
}

/// The video codec for a container format: VP9 for `webm`, H.264 otherwise.
pub open spec fn spec_video_codec(format: Seq<char>) -> Seq<char> {
    if format == "webm"@ {
        "libvpx-vp9"@
    } else {
        "libx264"@
    }
}

/// The audio codec used by the final concatenation for a container format:
/// Opus for `webm`, AAC otherwise.
pub open spec fn spec_audio_codec(format: Seq<char>) -> Seq<char> {
    if format == "webm"@ {
        "libopus"@
    } else {
        "aac"@
    }
}

/// The scale/bitrate/preset parameter string for a (format, quality) pair.
/// Unknown quality tiers use the `medium` row of their format family.
pub open spec fn spec_video_params(format: Seq<char>, quality: Seq<char>) -> Seq<char> {
    if format == "mp4"@ || format == "mov"@ {
        if quality == "low"@ {
            "-vf scale=1280:720 -b:v 1.5M -preset fast"@
        } else if quality == "high"@ {
            "-b:v 8M -preset slow"@
        } else if quality == "ultra"@ {
            "-b:v 15M -preset slow"@
        } else {
            "-vf scale=1920:1080 -b:v 4M -preset fast"@
        }
    } else if format == "webm"@ {
        if quality == "low"@ {
            "-vf scale=1280:720 -b:v 1M"@
        } else if quality == "high"@ {
            "-b:v 6M"@
        } else if quality == "ultra"@ {
            "-b:v 10M"@
        } else {
            "-vf scale=1920:1080 -b:v 3M"@
        }
    } else {
        if quality == "low"@ {
            "-vf scale=1280:720 -b:v 1.5M"@
        } else if quality == "high"@ {
            "-b:v 8M"@
        } else if quality == "ultra"@ {
            "-b:v 15M"@
        } else {
            "-vf scale=1920:1080 -b:v 4M"@
        }
    }
}

/// Resolves the encode profile for a (format, quality) pair, as
/// [`spec_video_codec`] and [`spec_video_params`] describe.
pub fn resolve_profile(format: &str, quality: &str) -> (p: EncodeProfile)
    ensures
        p.video_codec@ == spec_video_codec(format@),
        p.video_params@ == spec_video_params(format@, quality@),
{
    let params: &str = if str_eq(format, "mp4") || str_eq(format, "mov") {
        if str_eq(quality, "low") {
            "-vf scale=1280:720 -b:v 1.5M -preset fast"
        } else if str_eq(quality, "high") {
            "-b:v 8M -preset slow"
        } else if str_eq(quality, "ultra") {
            "-b:v 15M -preset slow"
        } else {
            "-vf scale=1920:1080 -b:v 4M -preset fast"
        }
    } else if str_eq(format, "webm") {
        if str_eq(quality, "low") {
            "-vf scale=1280:720 -b:v 1M"
        } else if str_eq(quality, "high") {
            "-b:v 6M"
        } else if str_eq(quality, "ultra") {
            "-b:v 10M"
        } else {
            "-vf scale=1920:1080 -b:v 3M"
        }
    } else {
        if str_eq(quality, "low") {
            "-vf scale=1280:720 -b:v 1.5M"
        } else if str_eq(quality, "high") {
            "-b:v 8M"
        } else if str_eq(quality, "ultra") {
            "-b:v 15M"
        } else {
            "-vf scale=1920:1080 -b:v 4M"
        }
    };
    let codec: &str = if str_eq(format, "webm") {
        "libvpx-vp9"
    } else {
        "libx264"
    };
    EncodeProfile { video_codec: String::from_str(codec), video_params: String::from_str(params) }
}

/// Resolves the (video codec, audio codec) pair the final concatenation
/// re-encodes with, as [`spec_video_codec`] and [`spec_audio_codec`] describe.
pub fn resolve_concat_codecs(format: &str) -> (r: (String, String))
    ensures
        r.0@ == spec_video_codec(format@),
        r.1@ == spec_audio_codec(format@),
{
    if str_eq(format, "webm") {
        (String::from_str("libvpx-vp9"), String::from_str("libopus"))
    } else {
        (String::from_str("libx264"), String::from_str("aac"))
    }
}

} // verus!
