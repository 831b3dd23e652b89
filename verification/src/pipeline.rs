//! The pipeline orchestrator.
//!
//! An edit request is turned into a [`Plan`]: the exact ordered list of
//! external-tool jobs, caption and manifest writes, and progress milestones,
//! together with the cleanup list of every intermediate artifact the run
//! creates.  The embedding application executes the steps in order, aborts the
//! remaining jobs on the first failure, and always deletes the cleanup list —
//! so every decision the pipeline makes is taken (and verified) here.

use vstd::prelude::*;
use vstd::string::StringExecFns;
use crate::command::{
    concat_command, filter_param, parse_transition, preview_command, render_command,
    spec_concat_command, spec_filter_param, spec_parse_transition, spec_preview_command,
    spec_render_command, spec_transition_command, transition_command, TransitionKind,
};
use crate::filter::{
    build_preview_filters, build_segment_filters, serialize_filters, spec_chain_text,
    spec_preview_filters, spec_segment_filters,
};
use crate::command::{manifest_content, spec_manifest_content};
use crate::paths::{
    manifest_file, preview_file, preview_subtitle_file, segment_artifact, spec_manifest_file,
    spec_preview_file, spec_preview_subtitle_file, spec_segment_artifact, spec_subtitle_file,
    spec_transition_artifact, subtitle_file, transition_artifact,
};
use crate::profile::{
    resolve_concat_codecs, resolve_profile, spec_audio_codec, spec_video_codec, spec_video_params,
};
use crate::subtitle::{spec_srt_content, srt_content};

verus! {

/// One time-bounded excerpt of the source, with optional caption text and
/// type tag.  A segment is rendered only when its end lies strictly after its
/// start; others are dropped, not errored.
#[derive(Clone, Debug)]
pub struct Segment {
    /// Start of the excerpt, milliseconds from the start of the source.
    pub start_ms: u64,
    /// End of the excerpt, milliseconds from the start of the source.
    pub end_ms: u64,
    /// Caption text overlaid on the excerpt when subtitles are requested.
    pub content: Option<String>,
    /// Free-form tag carried along with the segment.
    pub type_field: Option<String>,
}

/// A declarative edit request: the ordered segments to cut from the input and
/// the global options of the run.  Unset options take the documented
/// defaults.
#[derive(Clone, Debug)]
pub struct EditRequest {
    /// Source file path.
    pub input_path: String,
    /// Destination file path.
    pub output_path: String,
    /// The excerpts, in final timeline order.
    pub segments: Vec<Segment>,
    /// Quality tier (`low`, `medium`, `high`, `ultra`); default `medium`.
    pub quality: Option<String>,
    /// Container format (`mp4`, `mov`, `webm`, ...); default `mp4`.
    pub format: Option<String>,
    /// Transition kind between adjacent segments; default `none`.
    pub transition: Option<String>,
    /// Transition duration in milliseconds; default one second.
    pub transition_duration_ms: Option<u64>,
    /// Volume factor in thousandths; default `1000` (unity).
    pub volume_milli: Option<u64>,
    /// Whether caption overlays are requested; default off.
    pub add_subtitles: Option<bool>,
}

/// The pipeline's failure taxonomy.  Tool failures carry the tool's
/// diagnostic stream verbatim.
#[derive(Clone, Debug)]
pub enum PipelineError {
    /// The external extraction or inspection binary cannot be invoked.
    ToolNotInstalled,
    /// The request is unusable: no segment survives validation.
    InvalidRequest,
    /// A segment extraction job exited with failure.
    RenderFailed { detail: String },
    /// A transition compositing job exited with failure.
    TransitionFailed { detail: String },
    /// The final concatenation job exited with failure.
    ConcatFailed { detail: String },
    /// A caption file could not be written.
    SubtitleWriteFailed { detail: String },
    /// A temp-directory, manifest or file operation failed.
    IoFailed { detail: String },
}

impl PipelineError {
    /// A single descriptive message per failure kind; tool and file failures
    /// carry their diagnostic text verbatim after the kind's prefix.
    pub fn message(&self) -> (r: String)
        ensures
            self is ToolNotInstalled ==> r@ == "the media tool is not installed"@,
            self is InvalidRequest ==> r@ == "no valid segments in the request"@,
            self matches PipelineError::RenderFailed { detail } ==> r@ == "segment render failed: "@
                + detail@,
            self matches PipelineError::TransitionFailed { detail } ==> r@
                == "transition failed: "@ + detail@,
            self matches PipelineError::ConcatFailed { detail } ==> r@
                == "concatenation failed: "@ + detail@,
            self matches PipelineError::SubtitleWriteFailed { detail } ==> r@
                == "caption file write failed: "@ + detail@,
            self matches PipelineError::IoFailed { detail } ==> r@ == "file operation failed: "@
                + detail@,
    {
        match self {
            PipelineError::ToolNotInstalled => String::from_str(
                "the media tool is not installed",
            ),
            PipelineError::InvalidRequest => String::from_str("no valid segments in the request"),
            PipelineError::RenderFailed { detail } => {
                let mut s = String::from_str("segment render failed: ");
                s.append(detail.as_str());
                s
            },
            PipelineError::TransitionFailed { detail } => {
                let mut s = String::from_str("transition failed: ");
                s.append(detail.as_str());
                s
            },
            PipelineError::ConcatFailed { detail } => {
                let mut s = String::from_str("concatenation failed: ");
                s.append(detail.as_str());
                s
            },
            PipelineError::SubtitleWriteFailed { detail } => {
                let mut s = String::from_str("caption file write failed: ");
                s.append(detail.as_str());
                s
            },
            PipelineError::IoFailed { detail } => {
                let mut s = String::from_str("file operation failed: ");
                s.append(detail.as_str());
                s
            },
        }
    }
}

/// One step of a planned run, in execution order.
#[derive(Clone, Debug)]
pub enum Step {
    /// Write a caption file before the render that uses it.
    WriteSubtitle { path: String, content: String },
    /// Report a progress fraction, in thousandths of completion.
    Progress { permille: u32 },
    /// Run one segment extraction job; the artifact is its output path.
    Render { command: String, artifact: String },
    /// Run one pair-compositing job; the artifact is its output path.
    Transition { command: String, artifact: String },
    /// Write the concatenation manifest.
    WriteManifest { path: String, content: String },
    /// Run the final concatenation job.
    Concat { command: String },
}

/// The mathematical image of a [`Step`].
#[verifier::ext_equal]
pub enum StepView {
    WriteSubtitle { path: Seq<char>, content: Seq<char> },
    Progress { permille: nat },
    Render { command: Seq<char>, artifact: Seq<char> },
    Transition { command: Seq<char>, artifact: Seq<char> },
    WriteManifest { path: Seq<char>, content: Seq<char> },
    Concat { command: Seq<char> },
}

impl View for Step {
    type V = StepView;

    open spec fn view(&self) -> StepView {
        match self {
            Step::WriteSubtitle { path, content } => StepView::WriteSubtitle {
                path: path@,
                content: content@,
            },
            Step::Progress { permille } => StepView::Progress { permille: *permille as nat },
            Step::Render { command, artifact } => StepView::Render {
                command: command@,
                artifact: artifact@,
            },
            Step::Transition { command, artifact } => StepView::Transition {
                command: command@,
                artifact: artifact@,
            },
            Step::WriteManifest { path, content } => StepView::WriteManifest {
                path: path@,
                content: content@,
            },
            Step::Concat { command } => StepView::Concat { command: command@ },
        }
    }
}

/// The view of a step list.
pub open spec fn steps_view(s: Seq<Step>) -> Seq<StepView> {
    s.map_values(|x: Step| x@)
}

/// A planned run: the steps in execution order, the cleanup list deleted
/// after the run whatever its outcome, and the promised output path.
#[derive(Clone, Debug)]
pub struct Plan {
    /// The steps, in execution order.
    pub steps: Vec<Step>,
    /// Every intermediate artifact, caption file and manifest of the run.
    pub cleanup: Vec<String>,
    /// Where the finished edit lands on success.
    pub output_path: String,
}

/// The resolved configuration of one run: the request's options with
/// defaults applied, the working directory, and the run identifier.
#[verifier::ext_equal]
pub ghost struct PlanCfg {
    pub input: Seq<char>,
    pub output: Seq<char>,
    pub dir: Seq<char>,
    pub run: nat,
    pub fmt: Seq<char>,
    pub params: Seq<char>,
    pub codec: Seq<char>,
    pub volume: nat,
    pub subs: bool,
    pub tdur: nat,
    pub kind: TransitionKind,
}

pub open spec fn spec_opt_string(o: Option<String>, d: Seq<char>) -> Seq<char> {
    match o {
        Some(s) => s@,
        None => d,
    }
}

pub open spec fn spec_opt_u64(o: Option<u64>, d: u64) -> u64 {
    match o {
        Some(v) => v,
        None => d,
    }
}

pub open spec fn spec_opt_bool(o: Option<bool>, d: bool) -> bool {
    match o {
        Some(b) => b,
        None => d,
    }
}

/// The configuration a request resolves to under the given working directory
/// and run identifier.
pub open spec fn cfg_of(req: EditRequest, dir: Seq<char>, run: nat) -> PlanCfg {
    let fmt = spec_opt_string(req.format, "mp4"@);
    let quality = spec_opt_string(req.quality, "medium"@);
    PlanCfg {
        input: req.input_path@,
        output: req.output_path@,
        dir: dir,
        run: run,
        fmt: fmt,
        params: spec_video_params(fmt, quality),
        codec: spec_video_codec(fmt),
        volume: spec_opt_u64(req.volume_milli, 1000) as nat,
        subs: spec_opt_bool(req.add_subtitles, false),
        tdur: spec_opt_u64(req.transition_duration_ms, 1000) as nat,
        kind: match req.transition {
            Some(t) => spec_parse_transition(t@),
            None => TransitionKind::Disabled,
        },
    }
}

/// A segment survives validation exactly when its end lies strictly after
/// its start.
pub open spec fn seg_valid(s: Segment) -> bool {
    s.end_ms > s.start_ms
}

/// How many of the first `upto` segments survive validation.
pub open spec fn spec_valid_count(segs: Seq<Segment>, upto: int) -> nat
    decreases upto,
{
    if upto <= 0 {
        0
    } else {
        spec_valid_count(segs, upto - 1) + if seg_valid(segs[upto - 1]) {
            1nat
        } else {
            0nat
        }
    }
}

/// The caption file path for segment `i`, when one is written: subtitles must
/// be requested and the segment must carry text.
pub open spec fn spec_sub_path(c: PlanCfg, segs: Seq<Segment>, i: int) -> Option<Seq<char>> {
    if c.subs && segs[i].content is Some {
        Some(spec_subtitle_file(c.dir, c.run, i as nat))
    } else {
        None
    }
}

/// A valid segment's duration in milliseconds.
pub open spec fn spec_seg_dur_ms(s: Segment) -> nat {
    (s.end_ms - s.start_ms) as nat
}

/// The extraction command for segment `i`.
pub open spec fn spec_render_cmd(c: PlanCfg, segs: Seq<Segment>, i: int) -> Seq<char> {
    spec_render_command(
        c.input,
        segs[i].start_ms as nat,
        spec_seg_dur_ms(segs[i]),
        c.params,
        spec_filter_param(
            spec_chain_text(spec_segment_filters(c.volume, spec_sub_path(c, segs, i))),
        ),
        c.codec,
        spec_segment_artifact(c.dir, c.run, i as nat, c.fmt),
    )
}

/// The steps segment `i` of `n` contributes: nothing when invalid, otherwise
/// an optional caption write, the progress milestone `i/n` of the rendering
/// phase's six tenths, and the render job.
pub open spec fn spec_seg_steps(c: PlanCfg, segs: Seq<Segment>, n: int, i: int) -> Seq<StepView> {
    if !seg_valid(segs[i]) {
        Seq::empty()
    } else {
        let head: Seq<StepView> = match spec_sub_path(c, segs, i) {
            Some(p) => seq![
                StepView::WriteSubtitle {
                    path: p,
                    content: spec_srt_content(
                        segs[i].content->0@,
                        spec_seg_dur_ms(segs[i]) / 1000,
                    ),
                },
            ],
            None => Seq::empty(),
        };
        head + seq![
            StepView::Progress { permille: (i * 600 / n) as nat },
            StepView::Render {
                command: spec_render_cmd(c, segs, i),
                artifact: spec_segment_artifact(c.dir, c.run, i as nat, c.fmt),
            },
        ]
    }
}

/// All steps the first `upto` segments contribute, in order.
pub open spec fn spec_render_steps(c: PlanCfg, segs: Seq<Segment>, n: int, upto: int) -> Seq<
    StepView,
>
    decreases upto,
{
    if upto <= 0 {
        Seq::empty()
    } else {
        spec_render_steps(c, segs, n, upto - 1) + spec_seg_steps(c, segs, n, upto - 1)
    }
}

/// The artifact paths the first `upto` segments render, in order.
pub open spec fn spec_rendered(c: PlanCfg, segs: Seq<Segment>, upto: int) -> Seq<Seq<char>>
    decreases upto,
{
    if upto <= 0 {
        Seq::empty()
    } else {
        spec_rendered(c, segs, upto - 1) + if seg_valid(segs[upto - 1]) {
            seq![spec_segment_artifact(c.dir, c.run, (upto - 1) as nat, c.fmt)]
        } else {
            Seq::<Seq<char>>::empty()
        }
    }
}

/// The caption files the first `upto` segments write, in order.
pub open spec fn spec_subfiles(c: PlanCfg, segs: Seq<Segment>, upto: int) -> Seq<Seq<char>>
    decreases upto,
{
    if upto <= 0 {
        Seq::empty()
    } else {
        spec_subfiles(c, segs, upto - 1) + if seg_valid(segs[upto - 1]) && spec_sub_path(
            c,
            segs,
            upto - 1,
        ) is Some {
            seq![spec_sub_path(c, segs, upto - 1)->0]
        } else {
            Seq::<Seq<char>>::empty()
        }
    }
}

/// The compositing steps for the first `upto` adjacent pairs of the rendered
/// list.
pub open spec fn spec_trans_steps(c: PlanCfg, rendered: Seq<Seq<char>>, upto: int) -> Seq<StepView>
    decreases upto,
{
    if upto <= 0 {
        Seq::empty()
    } else {
        let j = upto - 1;
        let art = spec_transition_artifact(c.dir, c.run, j as nat, c.fmt);
        spec_trans_steps(c, rendered, j) + seq![
            StepView::Transition {
                command: spec_transition_command(c.kind, rendered[j], rendered[j + 1], c.tdur, art),
                artifact: art,
            },
        ]
    }
}

/// The composited artifact paths for the first `upto` adjacent pairs.
pub open spec fn spec_trans_artifacts(c: PlanCfg, upto: int) -> Seq<Seq<char>>
    decreases upto,
{
    if upto <= 0 {
        Seq::empty()
    } else {
        spec_trans_artifacts(c, upto - 1) + seq![
            spec_transition_artifact(c.dir, c.run, (upto - 1) as nat, c.fmt),
        ]
    }
}

/// The transition stage runs only when a transition is requested and at
/// least two segments were rendered.
pub open spec fn spec_transitions_on(c: PlanCfg, rendered_len: nat) -> bool {
    c.kind != TransitionKind::Disabled && rendered_len > 1
}

/// The artifact list handed to the final concatenation: the composited pairs
/// when the transition stage ran, the rendered segments unchanged otherwise.
pub open spec fn spec_final_list(c: PlanCfg, segs: Seq<Segment>) -> Seq<Seq<char>> {
    let r = spec_rendered(c, segs, segs.len() as int);
    if spec_transitions_on(c, r.len()) {
        spec_trans_artifacts(c, r.len() - 1)
    } else {
        r
    }
}

/// The steps of the middle (transition) phase: its fixed progress marker and
/// one compositing job per adjacent pair, or nothing when the stage is off.
pub open spec fn spec_mid_steps(c: PlanCfg, segs: Seq<Segment>) -> Seq<StepView> {
    let r = spec_rendered(c, segs, segs.len() as int);
    if spec_transitions_on(c, r.len()) {
        seq![StepView::Progress { permille: 700nat }] + spec_trans_steps(c, r, r.len() - 1)
    } else {
        Seq::empty()
    }
}

/// The closing steps of every plan: manifest write, the pre-encode progress
/// marker, the concatenation job, and completion.
pub open spec fn spec_tail_steps(c: PlanCfg, segs: Seq<Segment>) -> Seq<StepView> {
    seq![
        StepView::WriteManifest {
            path: spec_manifest_file(c.dir, c.run),
            content: spec_manifest_content(spec_final_list(c, segs)),
        },
        StepView::Progress { permille: 900nat },
        StepView::Concat {
            command: spec_concat_command(
                spec_manifest_file(c.dir, c.run),
                spec_video_codec(c.fmt),
                spec_audio_codec(c.fmt),
                c.output,
            ),
        },
        StepView::Progress { permille: 1000nat },
    ]
}

/// The whole plan: renders, then the optional transition phase, then the
/// manifest and final encode.
pub open spec fn spec_plan_steps(c: PlanCfg, segs: Seq<Segment>) -> Seq<StepView> {
    spec_render_steps(c, segs, segs.len() as int, segs.len() as int) + spec_mid_steps(c, segs)
        + spec_tail_steps(c, segs)
}

/// Everything a run creates besides its output: rendered artifacts,
/// composited artifacts, caption files, and the manifest.
pub open spec fn spec_cleanup(c: PlanCfg, segs: Seq<Segment>) -> Seq<Seq<char>> {
    let r = spec_rendered(c, segs, segs.len() as int);
    let t: Seq<Seq<char>> = if spec_transitions_on(c, r.len()) {
        spec_trans_artifacts(c, r.len() - 1)
    } else {
        Seq::empty()
    };
    r + t + spec_subfiles(c, segs, segs.len() as int) + seq![spec_manifest_file(c.dir, c.run)]
}

proof fn lemma_progress_bound(i: int, n: int)
    requires
        0 <= i < n,
    ensures
        0 <= i * 600 / n <= 600,
{
    vstd::arithmetic::mul::lemma_mul_inequality(i, n, 600);
    vstd::arithmetic::div_mod::lemma_div_is_ordered(i * 600, n * 600, n);
    vstd::arithmetic::div_mod::lemma_div_by_multiple(600, n);
    vstd::arithmetic::mul::lemma_mul_nonnegative(i, 600);
    vstd::arithmetic::div_mod::lemma_div_pos_is_pos(i * 600, n);
}

/// `dst` extended with clones of all of `src`.
fn extended(dst: Vec<String>, src: &Vec<String>) -> (r: Vec<String>)
    ensures
        r.deep_view() == dst.deep_view() + src.deep_view(),
{
    let ghost dst0 = dst.deep_view();
    let mut r = dst;
    let mut i: usize = 0;
    while i < src.len()
        invariant
            i <= src@.len(),
            r.deep_view() == dst0 + src.deep_view().take(i as int),
        decreases src@.len() - i,
    {
        let ghost pre = r.deep_view();
        r.push(src[i].clone());
        proof {
            assert forall|k: int| 0 <= k < r@.len() implies r.deep_view()[k] == (dst0
                + src.deep_view().take(i + 1))[k] by {
                if k < pre.len() {
                    assert(r.deep_view()[k] == pre[k]);
                } else {
                    assert(r.deep_view()[k] == src@[i as int]@);
                }
            }
            assert(src.deep_view().len() == src@.len());
            assert(pre.len() == dst0.len() + i);
            assert(r.deep_view().len() == dst0.len() + i + 1);
            assert(src.deep_view().take(i + 1).len() == i + 1);
            assert(r.deep_view() =~= dst0 + src.deep_view().take(i + 1));
        }
        i = i + 1;
    }
    proof {
        assert(src.deep_view().take(src@.len() as int) =~= src.deep_view());
    }
    r
}

/// Plans one edit run.
///
/// Fails with [`PipelineError::InvalidRequest`] exactly when no segment
/// survives validation (this covers the empty list); otherwise the plan's
/// steps, cleanup list and output path are exactly the ones
/// [`spec_plan_steps`], [`spec_cleanup`] and the request describe.  No job is
/// planned for a dropped segment.
pub fn build_plan(req: &EditRequest, temp_dir: &str, run_id: u64) -> (r: Result<
    Plan,
    PipelineError,
>)
    ensures
        r is Err <==> spec_valid_count(req.segments@, req.segments@.len() as int) == 0,
        r is Err ==> r->Err_0 is InvalidRequest,
        r is Ok ==> {
            let c = cfg_of(*req, temp_dir@, run_id as nat);
            &&& steps_view(r->Ok_0.steps@) == spec_plan_steps(c, req.segments@)
            &&& r->Ok_0.cleanup.deep_view() == spec_cleanup(c, req.segments@)
            &&& r->Ok_0.output_path@ == req.output_path@
        },
{
    let ghost c = cfg_of(*req, temp_dir@, run_id as nat);
    let n = req.segments.len();

    let mut valid: usize = 0;
    let mut i: usize = 0;
    while i < n
        invariant
            n == req.segments@.len(),
            i <= n,
            valid <= i,
            valid == spec_valid_count(req.segments@, i as int),
        decreases n - i,
    {
        if req.segments[i].end_ms > req.segments[i].start_ms {
            valid = valid + 1;
        }
        i = i + 1;
    }
    if valid == 0 {
        return Err(PipelineError::InvalidRequest);
    }

    let format: String = match &req.format {
        Some(f) => f.clone(),
        None => String::from_str("mp4"),
    };
    let quality: String = match &req.quality {
        Some(q) => q.clone(),
        None => String::from_str("medium"),
    };
    let volume_milli: u64 = match req.volume_milli {
        Some(v) => v,
        None => 1000,
    };
    let tdur_ms: u64 = match req.transition_duration_ms {
        Some(d) => d,
        None => 1000,
    };
    let add_subs: bool = match req.add_subtitles {
        Some(b) => b,
        None => false,
    };
    let kind: TransitionKind = match &req.transition {
        Some(t) => parse_transition(t.as_str()),
        None => TransitionKind::Disabled,
    };
    let profile = resolve_profile(format.as_str(), quality.as_str());
    proof {
        assert(format@ == c.fmt);
        assert(profile.video_codec@ == c.codec);
        assert(profile.video_params@ == c.params);
        assert(volume_milli as nat == c.volume);
        assert(tdur_ms as nat == c.tdur);
        assert(add_subs == c.subs);
        assert(kind == c.kind);
    }

    let mut steps: Vec<Step> = Vec::new();
    let mut rendered: Vec<String> = Vec::new();
    let mut subfiles: Vec<String> = Vec::new();

    let mut i: usize = 0;
    while i < n
        invariant
            n == req.segments@.len(),
            n >= 1,
            i <= n,
            c == cfg_of(*req, temp_dir@, run_id as nat),
            format@ == c.fmt,
            profile.video_codec@ == c.codec,
            profile.video_params@ == c.params,
            volume_milli as nat == c.volume,
            add_subs == c.subs,
            steps_view(steps@) == spec_render_steps(c, req.segments@, n as int, i as int),
            rendered.deep_view() == spec_rendered(c, req.segments@, i as int),
            subfiles.deep_view() == spec_subfiles(c, req.segments@, i as int),
        decreases n - i,
    {
        let seg = &req.segments[i];
        if seg.end_ms > seg.start_ms {
            let dur_ms = seg.end_ms - seg.start_ms;
            let mut sub_path: Option<String> = None;
            if add_subs {
                match &seg.content {
                    Some(text) => {
                        let p = subtitle_file(temp_dir, run_id, i as u64);
                        let content = srt_content(text.as_str(), dur_ms / 1000);
                        steps.push(Step::WriteSubtitle { path: p.clone(), content });
                        subfiles.push(p.clone());
                        sub_path = Some(p);
                    },
                    None => {},
                }
            }
            let filters = build_segment_filters(volume_milli, sub_path);
            let chain = serialize_filters(&filters);
            let fparam = filter_param(chain.as_str());
            let artifact = segment_artifact(temp_dir, run_id, i as u64, format.as_str());
            let cmd = render_command(
                req.input_path.as_str(),
                seg.start_ms,
                dur_ms,
                profile.video_params.as_str(),
                fparam.as_str(),
                profile.video_codec.as_str(),
                artifact.as_str(),
            );
            proof {
                lemma_progress_bound(i as int, n as int);
            }
            let permille: u32 = (((i as u128) * 600) / (n as u128)) as u32;
            proof {
                assert(permille as nat == (i as int * 600 / (n as int)) as nat);
            }
            steps.push(Step::Progress { permille });
            steps.push(Step::Render { command: cmd, artifact: artifact.clone() });
            rendered.push(artifact);
            proof {
                assert(steps_view(steps@) =~~= spec_render_steps(
                    c,
                    req.segments@,
                    n as int,
                    i as int,
                ) + spec_seg_steps(c, req.segments@, n as int, i as int));
                assert(rendered.deep_view() =~~= spec_rendered(c, req.segments@, i + 1));
                assert(subfiles.deep_view() =~~= spec_subfiles(c, req.segments@, i + 1));
            }
        } else {
            proof {
                assert(steps_view(steps@) =~~= spec_render_steps(c, req.segments@, n as int, i + 1));
                assert(rendered.deep_view() =~~= spec_rendered(c, req.segments@, i + 1));
                assert(subfiles.deep_view() =~~= spec_subfiles(c, req.segments@, i + 1));
            }
        }
        i = i + 1;
    }

    let m = rendered.len();
    let mut trans_artifacts: Vec<String> = Vec::new();
    let trans_on = kind != TransitionKind::Disabled && m > 1;
    if trans_on {
        steps.push(Step::Progress { permille: 700 });
        let mut j: usize = 0;
        while j < m - 1
            invariant
                m == rendered.deep_view().len(),
                m >= 2,
                j <= m - 1,
                c == cfg_of(*req, temp_dir@, run_id as nat),
                format@ == c.fmt,
                tdur_ms as nat == c.tdur,
                kind == c.kind,
                rendered.deep_view() == spec_rendered(
                    c,
                    req.segments@,
                    req.segments@.len() as int,
                ),
                steps_view(steps@) == spec_render_steps(
                    c,
                    req.segments@,
                    req.segments@.len() as int,
                    req.segments@.len() as int,
                ) + seq![StepView::Progress { permille: 700nat }] + spec_trans_steps(
                    c,
                    rendered.deep_view(),
                    j as int,
                ),
                trans_artifacts.deep_view() == spec_trans_artifacts(c, j as int),
            decreases m - 1 - j,
        {
            let art = transition_artifact(temp_dir, run_id, j as u64, format.as_str());
            let cmd = transition_command(
                kind,
                rendered[j].as_str(),
                rendered[j + 1].as_str(),
                tdur_ms,
                art.as_str(),
            );
            let ghost pre_steps = steps_view(steps@);
            let ghost pre_arts = trans_artifacts.deep_view();
            let ghost cmdv = cmd@;
            let ghost artv = art@;
            steps.push(Step::Transition { command: cmd, artifact: art.clone() });
            trans_artifacts.push(art);
            proof {
                assert(rendered.deep_view()[j as int] == rendered@[j as int]@);
                assert(rendered.deep_view()[j + 1] == rendered@[j + 1]@);
                assert(steps_view(steps@).len() == pre_steps.len() + 1);
                assert(steps_view(steps@)[pre_steps.len() as int] == StepView::Transition {
                    command: cmdv,
                    artifact: artv,
                });
                assert(artv == spec_transition_artifact(c.dir, c.run, j as nat, c.fmt));
                assert(cmdv == spec_transition_command(
                    c.kind,
                    rendered.deep_view()[j as int],
                    rendered.deep_view()[j + 1],
                    c.tdur,
                    spec_transition_artifact(c.dir, c.run, j as nat, c.fmt),
                ));
                assert(spec_trans_steps(c, rendered.deep_view(), j + 1) == spec_trans_steps(
                    c,
                    rendered.deep_view(),
                    j as int,
                ) + seq![
                    StepView::Transition {
                        command: spec_transition_command(
                            c.kind,
                            rendered.deep_view()[j as int],
                            rendered.deep_view()[j + 1],
                            c.tdur,
                            spec_transition_artifact(c.dir, c.run, j as nat, c.fmt),
                        ),
                        artifact: spec_transition_artifact(c.dir, c.run, j as nat, c.fmt),
                    },
                ]);
                let ghost rsteps = spec_render_steps(
                    c,
                    req.segments@,
                    req.segments@.len() as int,
                    req.segments@.len() as int,
                );
                let ghost p700 = seq![StepView::Progress { permille: 700nat }];
                let ghost elem = StepView::Transition { command: cmdv, artifact: artv };
                assert(steps_view(steps@) =~~= pre_steps + seq![elem]);
                assert((rsteps + p700 + spec_trans_steps(c, rendered.deep_view(), j as int))
                    + seq![elem] =~~= rsteps + p700 + (spec_trans_steps(
                    c,
                    rendered.deep_view(),
                    j as int,
                ) + seq![elem]));
                assert(seq![elem] =~~= seq![
                    StepView::Transition {
                        command: spec_transition_command(
                            c.kind,
                            rendered.deep_view()[j as int],
                            rendered.deep_view()[j + 1],
                            c.tdur,
                            spec_transition_artifact(c.dir, c.run, j as nat, c.fmt),
                        ),
                        artifact: spec_transition_artifact(c.dir, c.run, j as nat, c.fmt),
                    },
                ]);
                assert(steps_view(steps@) == rsteps + p700 + spec_trans_steps(
                    c,
                    rendered.deep_view(),
                    j + 1,
                ));
                assert(trans_artifacts.deep_view().len() == pre_arts.len() + 1);
                assert(trans_artifacts.deep_view()[pre_arts.len() as int] == artv);
                assert(trans_artifacts.deep_view() =~~= spec_trans_artifacts(c, j + 1));
            }
            j = j + 1;
        }
    }

    let mut final_list: Vec<String> = Vec::new();
    if trans_on {
        final_list = extended(final_list, &trans_artifacts);
    } else {
        final_list = extended(final_list, &rendered);
    }
    proof {
        assert(trans_on == spec_transitions_on(
            c,
            spec_rendered(c, req.segments@, req.segments@.len() as int).len(),
        ));
        assert(final_list.deep_view() =~~= spec_final_list(c, req.segments@));
    }

    let ghost base_steps = steps_view(steps@);
    proof {
        assert(m == spec_rendered(c, req.segments@, req.segments@.len() as int).len());
        assert(base_steps =~~= spec_render_steps(
            c,
            req.segments@,
            req.segments@.len() as int,
            req.segments@.len() as int,
        ) + spec_mid_steps(c, req.segments@));
    }

    let mpath = manifest_file(temp_dir, run_id);
    let mcontent = manifest_content(&final_list);
    let ghost mcontentv = mcontent@;
    steps.push(Step::WriteManifest { path: mpath.clone(), content: mcontent });
    let codecs = resolve_concat_codecs(format.as_str());
    let ccmd = concat_command(
        mpath.as_str(),
        codecs.0.as_str(),
        codecs.1.as_str(),
        req.output_path.as_str(),
    );
    let ghost ccmdv = ccmd@;
    steps.push(Step::Progress { permille: 900 });
    steps.push(Step::Concat { command: ccmd });
    steps.push(Step::Progress { permille: 1000 });
    proof {
        assert(steps_view(steps@).len() == base_steps.len() + 4);
        assert(steps_view(steps@)[base_steps.len() as int] == StepView::WriteManifest {
            path: mpath@,
            content: mcontentv,
        });
        assert(steps_view(steps@)[base_steps.len() as int + 1] == StepView::Progress {
            permille: 900nat,
        });
        assert(steps_view(steps@)[base_steps.len() as int + 2] == StepView::Concat { command: ccmdv });
        assert(steps_view(steps@)[base_steps.len() as int + 3] == StepView::Progress {
            permille: 1000nat,
        });
        assert(mcontentv == spec_manifest_content(spec_final_list(c, req.segments@)));
        assert(steps_view(steps@) =~~= base_steps + spec_tail_steps(c, req.segments@));
    }

    let mut cleanup: Vec<String> = Vec::new();
    cleanup = extended(cleanup, &rendered);
    cleanup = extended(cleanup, &trans_artifacts);
    cleanup = extended(cleanup, &subfiles);
    cleanup.push(mpath);

    proof {
        assert(steps_view(steps@) =~~= spec_plan_steps(c, req.segments@));
        assert(cleanup.deep_view() =~~= spec_cleanup(c, req.segments@));
    }

    Ok(Plan { steps, cleanup, output_path: req.output_path.clone() })
}

/// A request to render a single segment for preview, with the same
/// filter-chain rules as a full edit but no transition stage.
#[derive(Clone, Debug)]
pub struct PreviewRequest {
    /// Source file path.
    pub input_path: String,
    /// The one excerpt to render.
    pub segment: Segment,
    /// Carried from the request surface; a preview has no transition stage.
    pub transition: Option<String>,
    /// Carried from the request surface; a preview has no transition stage.
    pub transition_duration_ms: Option<u64>,
    /// Volume factor in thousandths; default `1000` (unity).
    pub volume_milli: Option<u64>,
    /// Whether a caption overlay is requested; default off.
    pub add_subtitles: Option<bool>,
}

/// The caption file of a preview, when one is written: subtitles must be
/// requested and the segment must carry text.
pub open spec fn spec_preview_sub_path(dir: Seq<char>, run: nat, subs: bool, seg: Segment) -> Option<
    Seq<char>,
> {
    if subs && seg.content is Some {
        Some(spec_preview_subtitle_file(dir, run))
    } else {
        None
    }
}

/// The steps of a preview run: an optional caption write, then one render
/// into the preview file with the preview filter chain.
pub open spec fn spec_preview_steps(req: PreviewRequest, dir: Seq<char>, run: nat) -> Seq<StepView> {
    let vol = spec_opt_u64(req.volume_milli, 1000) as nat;
    let subs = spec_opt_bool(req.add_subtitles, false);
    let sub = spec_preview_sub_path(dir, run, subs, req.segment);
    let dur = spec_seg_dur_ms(req.segment);
    let out = spec_preview_file(dir, run);
    let head: Seq<StepView> = match sub {
        Some(p) => seq![
            StepView::WriteSubtitle {
                path: p,
                content: spec_srt_content(req.segment.content->0@, dur / 1000),
            },
        ],
        None => Seq::empty(),
    };
    head + seq![
        StepView::Render {
            command: spec_preview_command(
                req.input_path@,
                req.segment.start_ms as nat,
                dur,
                spec_chain_text(spec_preview_filters(vol, sub)),
                out,
            ),
            artifact: out,
        },
    ]
}

/// What a preview run must clean up: only its caption file, if any.  The
/// preview artifact itself is the product and stays.
pub open spec fn spec_preview_cleanup(req: PreviewRequest, dir: Seq<char>, run: nat) -> Seq<
    Seq<char>,
> {
    let subs = spec_opt_bool(req.add_subtitles, false);
    match spec_preview_sub_path(dir, run, subs, req.segment) {
        Some(p) => seq![p],
        None => Seq::empty(),
    }
}

/// Plans one preview run.
///
/// Fails with [`PipelineError::InvalidRequest`] exactly when the segment's
/// end does not lie strictly after its start; otherwise the plan renders that
/// one segment as [`spec_preview_steps`] describes, and cleans up only the
/// caption file it may write.
pub fn build_preview_plan(req: &PreviewRequest, temp_dir: &str, run_id: u64) -> (r: Result<
    Plan,
    PipelineError,
>)
    ensures
        r is Err <==> !seg_valid(req.segment),
        r is Err ==> r->Err_0 is InvalidRequest,
        r is Ok ==> {
            &&& steps_view(r->Ok_0.steps@) == spec_preview_steps(*req, temp_dir@, run_id as nat)
            &&& r->Ok_0.cleanup.deep_view() == spec_preview_cleanup(*req, temp_dir@, run_id as nat)
            &&& r->Ok_0.output_path@ == spec_preview_file(temp_dir@, run_id as nat)
        },
{
    if req.segment.end_ms <= req.segment.start_ms {
        return Err(PipelineError::InvalidRequest);
    }
    let dur_ms = req.segment.end_ms - req.segment.start_ms;
    let volume_milli: u64 = match req.volume_milli {
        Some(v) => v,
        None => 1000,
    };
    let add_subs: bool = match req.add_subtitles {
        Some(b) => b,
        None => false,
    };
    let out = preview_file(temp_dir, run_id);

    let mut steps: Vec<Step> = Vec::new();
    let mut cleanup: Vec<String> = Vec::new();
    let mut sub_path: Option<String> = None;
    if add_subs {
        match &req.segment.content {
            Some(text) => {
                let p = preview_subtitle_file(temp_dir, run_id);
                let content = srt_content(text.as_str(), dur_ms / 1000);
                steps.push(Step::WriteSubtitle { path: p.clone(), content });
                cleanup.push(p.clone());
                sub_path = Some(p);
            },
            None => {},
        }
    }
    let filters = build_preview_filters(volume_milli, sub_path);
    let chain = serialize_filters(&filters);
    let cmd = preview_command(
        req.input_path.as_str(),
        req.segment.start_ms,
        dur_ms,
        chain.as_str(),
        out.as_str(),
    );
    steps.push(Step::Render { command: cmd, artifact: out.clone() });
    proof {
        assert(steps_view(steps@) =~~= spec_preview_steps(*req, temp_dir@, run_id as nat));
        assert(cleanup.deep_view() =~~= spec_preview_cleanup(*req, temp_dir@, run_id as nat));
    }
    Ok(Plan { steps, cleanup, output_path: out })
}

} // verus!
