//! Command lines for the external media tool.  Each pipeline stage is a
//! described job: the functions here turn plain inputs into the exact shell
//! command text the stage runs, so the decision logic stays testable without
//! ever spawning the tool.

use vstd::prelude::*;
use vstd::string::StringExecFns;
use crate::text::{millis_display, spec_millis_display, str_eq};

verus! {

/// The requested transition treatment between adjacent rendered segments.
#[derive(Clone, Copy, Debug, PartialEq, Eq, Structural)]
pub enum TransitionKind {
    /// No transition stage at all (the `none` request).
    Disabled,
    /// Alpha fade-out over fade-in, held for the transition duration.
    Fade,
    /// Cross-fade at a fixed offset into the pair.
    Dissolve,
    /// Wipe at a fixed offset into the pair.
    Wipe,
    /// Slide at a fixed offset into the pair.
    Slide,
    /// Any other requested kind: a plain frame concatenation of the pair.
    Other,
}

/// The transition kind a request string denotes.  `none` disables the stage;
/// unrecognized kinds still enter the stage but composite by plain
/// concatenation.
pub open spec fn spec_parse_transition(s: Seq<char>) -> TransitionKind {
    if s == "none"@ {
        TransitionKind::Disabled
    } else if s == "fade"@ {
        TransitionKind::Fade
    } else if s == "dissolve"@ {
        TransitionKind::Dissolve
    } else if s == "wipe"@ {
        TransitionKind::Wipe
    } else if s == "slide"@ {
        TransitionKind::Slide
    } else {
        TransitionKind::Other
    }
}

/// Parses a transition request string, as [`spec_parse_transition`]
/// describes.
pub fn parse_transition(s: &str) -> (k: TransitionKind)
    ensures
        k == spec_parse_transition(s@),
{
    if str_eq(s, "none") {
        TransitionKind::Disabled
    } else if str_eq(s, "fade") {
        TransitionKind::Fade
    } else if str_eq(s, "dissolve") {
        TransitionKind::Dissolve
    } else if str_eq(s, "wipe") {
        TransitionKind::Wipe
    } else if str_eq(s, "slide") {
        TransitionKind::Slide
    } else {
        TransitionKind::Other
    }
}

/// The filter argument of a render command: empty for an empty chain,
/// otherwise the chain quoted behind `-vf`.
pub open spec fn spec_filter_param(chain: Seq<char>) -> Seq<char> {
    if chain.len() == 0 {
        Seq::empty()
    } else {
        "-vf \""@ + chain + "\""@
    }
}

/// Builds the filter argument, as [`spec_filter_param`] describes.
pub fn filter_param(chain: &str) -> (r: String)
    ensures
        r@ == spec_filter_param(chain@),
{
    if chain.is_empty() {
        String::new()
    } else {
        let mut s = String::from_str("-vf \"");
        s.append(chain);
        s.append("\"");
        s
    }
}

/// The extraction command for one segment: seek to the start, read the
/// duration, apply the encode parameters and filter chain, and write the
/// artifact with AAC audio.
pub open spec fn spec_render_command(
    input: Seq<char>,
    start_ms: nat,
    duration_ms: nat,
    video_params: Seq<char>,
    filter: Seq<char>,
    codec: Seq<char>,
    artifact: Seq<char>,
) -> Seq<char> {
    "ffmpeg -y -ss "@ + spec_millis_display(start_ms) + " -i \""@ + input + "\" -t "@
        + spec_millis_display(duration_ms) + " "@ + video_params + " "@ + filter + " -c:v "@
        + codec + " -c:a aac -strict experimental \""@ + artifact + "\""@
}

/// Builds one segment's extraction command, as
/// [`spec_render_command`] describes.
pub fn render_command(
    input: &str,
    start_ms: u64,
    duration_ms: u64,
    video_params: &str,
    filter: &str,
    codec: &str,
    artifact: &str,
) -> (r: String)
    ensures
        r@ == spec_render_command(
            input@,
            start_ms as nat,
            duration_ms as nat,
            video_params@,
            filter@,
            codec@,
            artifact@,
        ),
{
    let mut s = String::from_str("ffmpeg -y -ss ");
    let start = millis_display(start_ms);
    s.append(start.as_str());
    s.append(" -i \"");
    s.append(input);
    s.append("\" -t ");
    let dur = millis_display(duration_ms);
    s.append(dur.as_str());
    s.append(" ");
    s.append(video_params);
    s.append(" ");
    s.append(filter);
    s.append(" -c:v ");
    s.append(codec);
    s.append(" -c:a aac -strict experimental \"");
    s.append(artifact);
    s.append("\"");
    s
}

/// The compositing command for one adjacent pair under a given transition
/// kind.  `Fade` cross-dissolves with an alpha fade held for the duration;
/// `Dissolve`, `Wipe` and `Slide` use the tool's cross-fade family at a fixed
/// five-second offset; anything else concatenates the two without blending.
pub open spec fn spec_transition_command(
    kind: TransitionKind,
    first: Seq<char>,
    second: Seq<char>,
    duration_ms: nat,
    artifact: Seq<char>,
) -> Seq<char> {
    let d = spec_millis_display(duration_ms);
    let head = "ffmpeg -y -i \""@ + first + "\" -i \""@ + second + "\" -filter_complex \""@;
    let tail = "[outv]\" -map \"[outv]\" \""@ + artifact + "\""@;
    match kind {
        TransitionKind::Fade => head + "[0:v]format=pix_fmts=yuva420p,fade=t=out:st="@ + d + ":d="@
            + d + ":alpha=1[fv1];[1:v]format=pix_fmts=yuva420p,fade=t=in:st=0:d="@ + d
            + ":alpha=1[fv2];[fv1][fv2]overlay=format=yuv420"@ + tail,
        TransitionKind::Dissolve => head + "[0:v][1:v]xfade=transition=fade:duration="@ + d
            + ":offset=5"@ + tail,
        TransitionKind::Wipe => head + "[0:v][1:v]xfade=transition=wiperight:duration="@ + d
            + ":offset=5"@ + tail,
        TransitionKind::Slide => head + "[0:v][1:v]xfade=transition=slideleft:duration="@ + d
            + ":offset=5"@ + tail,
        _ => head + "[0:v][1:v]concat=n=2:v=1:a=0"@ + tail,
    }
}

/// Builds one pair's compositing command, as
/// [`spec_transition_command`] describes.
pub fn transition_command(
    kind: TransitionKind,
    first: &str,
    second: &str,
    duration_ms: u64,
    artifact: &str,
) -> (r: String)
    ensures
        r@ == spec_transition_command(kind, first@, second@, duration_ms as nat, artifact@),
{
    let d = millis_display(duration_ms);
    let mut s = String::from_str("ffmpeg -y -i \"");
    s.append(first);
    s.append("\" -i \"");
    s.append(second);
    s.append("\" -filter_complex \"");
    match kind {
        TransitionKind::Fade => {
            s.append("[0:v]format=pix_fmts=yuva420p,fade=t=out:st=");
            s.append(d.as_str());
            s.append(":d=");
            s.append(d.as_str());
            s.append(":alpha=1[fv1];[1:v]format=pix_fmts=yuva420p,fade=t=in:st=0:d=");
            s.append(d.as_str());
            s.append(":alpha=1[fv2];[fv1][fv2]overlay=format=yuv420");
        },
        TransitionKind::Dissolve => {
            s.append("[0:v][1:v]xfade=transition=fade:duration=");
            s.append(d.as_str());
            s.append(":offset=5");
        },
        TransitionKind::Wipe => {
            s.append("[0:v][1:v]xfade=transition=wiperight:duration=");
            s.append(d.as_str());
            s.append(":offset=5");
        },
        TransitionKind::Slide => {
            s.append("[0:v][1:v]xfade=transition=slideleft:duration=");
            s.append(d.as_str());
            s.append(":offset=5");
        },
        _ => {
            s.append("[0:v][1:v]concat=n=2:v=1:a=0");
        },
    }
    s.append("[outv]\" -map \"[outv]\" \"");
    s.append(artifact);
    s.append("\"");
    proof {
        assert(s@ =~= spec_transition_command(
            kind,
            first@,
            second@,
            duration_ms as nat,
            artifact@,
        ));
    }
    s
}

/// One manifest line per artifact, in order: `file '<path>'`.
pub open spec fn spec_manifest_content(paths: Seq<Seq<char>>) -> Seq<char>
    decreases paths.len(),
{
    if paths.len() == 0 {
        Seq::empty()
    } else {
        spec_manifest_content(paths.drop_last()) + "file '"@ + paths.last() + "'\n"@
    }
}

/// Builds the concatenation manifest text, as
/// [`spec_manifest_content`] describes.
pub fn manifest_content(paths: &Vec<String>) -> (r: String)
    ensures
        r@ == spec_manifest_content(paths.deep_view()),
{
    let mut s = String::new();
    let mut i: usize = 0;
    while i < paths.len()
        invariant
            i <= paths@.len(),
            s@ == spec_manifest_content(paths.deep_view().take(i as int)),
        decreases paths@.len() - i,
    {
        s.append("file '");
        s.append(paths[i].as_str());
        s.append("'\n");
        proof {
            assert(paths.deep_view().take(i + 1).drop_last() =~= paths.deep_view().take(i as int));
            assert(paths.deep_view().take(i + 1).last() == paths@[i as int]@);
            assert(s@ =~= spec_manifest_content(paths.deep_view().take(i + 1)));
        }
        i = i + 1;
    }
    proof {
        assert(paths.deep_view().take(paths@.len() as int) =~= paths.deep_view());
    }
    s
}

/// The final concatenation command: concat mode over the manifest, re-encoded
/// into the requested container's codecs, written to the output path.
pub open spec fn spec_concat_command(
    manifest: Seq<char>,
    video_codec: Seq<char>,
    audio_codec: Seq<char>,
    output: Seq<char>,
) -> Seq<char> {
    "ffmpeg -y -f concat -safe 0 -i \""@ + manifest + "\" -c:v "@ + video_codec + " -c:a "@
        + audio_codec + " -strict -2 \""@ + output + "\""@
}

/// Builds the final concatenation command, as
/// [`spec_concat_command`] describes.
pub fn concat_command(manifest: &str, video_codec: &str, audio_codec: &str, output: &str) -> (r:
    String)
    ensures
        r@ == spec_concat_command(manifest@, video_codec@, audio_codec@, output@),
{
    let mut s = String::from_str("ffmpeg -y -f concat -safe 0 -i \"");
    s.append(manifest);
    s.append("\" -c:v ");
    s.append(video_codec);
    s.append(" -c:a ");
    s.append(audio_codec);
    s.append(" -strict -2 \"");
    s.append(output);
    s.append("\"");
    s
}

/// A preview render command: like a segment render, but always H.264 with the
/// preview filter chain (never empty, so always quoted behind `-vf`).
pub open spec fn spec_preview_command(
    input: Seq<char>,
    start_ms: nat,
    duration_ms: nat,
    chain: Seq<char>,
    output: Seq<char>,
) -> Seq<char> {
    "ffmpeg -y -ss "@ + spec_millis_display(start_ms) + " -i \""@ + input + "\" -t "@
        + spec_millis_display(duration_ms) + " -vf \""@ + chain
        + "\" -c:v libx264 -c:a aac -strict experimental \""@ + output + "\""@
}

/// Builds a preview render command, as [`spec_preview_command`] describes.
pub fn preview_command(
    input: &str,
    start_ms: u64,
    duration_ms: u64,
    chain: &str,
    output: &str,
) -> (r: String)
    ensures
        r@ == spec_preview_command(input@, start_ms as nat, duration_ms as nat, chain@, output@),
{
    let mut s = String::from_str("ffmpeg -y -ss ");
    let start = millis_display(start_ms);
    s.append(start.as_str());
    s.append(" -i \"");
    s.append(input);
    s.append("\" -t ");
    let dur = millis_display(duration_ms);
    s.append(dur.as_str());
    s.append(" -vf \"");
    s.append(chain);
    s.append("\" -c:v libx264 -c:a aac -strict experimental \"");
    s.append(output);
    s.append("\"");
    s
}

} // verus!
