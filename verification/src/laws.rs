//! Laws of the planned pipeline, proved once and for all over the plan
//! specification: which segments are rendered, how progress behaves, what the
//! transition stage does to the final list, and that cleanup covers
//! everything a run creates.

use vstd::prelude::*;
use crate::command::TransitionKind;
use crate::pipeline::{
    seg_valid, spec_final_list, spec_mid_steps, spec_plan_steps, spec_render_steps,
    spec_rendered, spec_seg_steps, spec_subfiles, spec_tail_steps, spec_trans_artifacts,
    spec_trans_steps, spec_valid_count, PlanCfg, Segment, StepView,
};
use crate::paths::spec_transition_artifact;

verus! {

/// The progress fractions a step list emits, in order, in thousandths.
pub open spec fn spec_progress_values(steps: Seq<StepView>) -> Seq<nat>
    decreases steps.len(),
{
    if steps.len() == 0 {
        Seq::empty()
    } else {
        spec_progress_values(steps.drop_last()) + match steps.last() {
            StepView::Progress { permille } => seq![permille],
            _ => Seq::<nat>::empty(),
        }
    }
}

/// The fractions are non-decreasing along the sequence.
pub open spec fn monotone(p: Seq<nat>) -> bool {
    forall|x: int, y: int| 0 <= x <= y < p.len() ==> p[x] <= p[y]
}

proof fn lemma_progress_concat(a: Seq<StepView>, b: Seq<StepView>)
    ensures
        spec_progress_values(a + b) == spec_progress_values(a) + spec_progress_values(b),
    decreases b.len(),
{
    if b.len() == 0 {
        assert(a + b =~= a);
        assert(spec_progress_values(a) + spec_progress_values(b) =~= spec_progress_values(a));
    } else {
        lemma_progress_concat(a, b.drop_last());
        assert((a + b).drop_last() =~= a + b.drop_last());
        assert((a + b).last() == b.last());
        assert(spec_progress_values(a) + (spec_progress_values(b.drop_last()) + match b.last() {
            StepView::Progress { permille } => seq![permille],
            _ => Seq::<nat>::empty(),
        }) =~= (spec_progress_values(a) + spec_progress_values(b.drop_last())) + match b.last() {
            StepView::Progress { permille } => seq![permille],
            _ => Seq::<nat>::empty(),
        });
    }
}

proof fn lemma_pv_single(s: StepView)
    ensures
        spec_progress_values(seq![s]) =~= match s {
            StepView::Progress { permille } => seq![permille],
            _ => Seq::<nat>::empty(),
        },
{
    assert(seq![s].drop_last().len() == 0);
    assert(spec_progress_values(seq![s].drop_last()) == Seq::<nat>::empty());
    assert(seq![s].last() == s);
    assert(spec_progress_values(seq![s]) == Seq::<nat>::empty() + match s {
        StepView::Progress { permille } => seq![permille],
        _ => Seq::<nat>::empty(),
    });
}

proof fn lemma_monotone_concat(a: Seq<nat>, b: Seq<nat>)
    requires
        monotone(a),
        monotone(b),
        forall|x: int, y: int| 0 <= x < a.len() && 0 <= y < b.len() ==> a[x] <= b[y],
    ensures
        monotone(a + b),
{
    assert forall|x: int, y: int| 0 <= x <= y < (a + b).len() implies (a + b)[x] <= (a + b)[y] by {
        if y < a.len() {
            assert(a[x] <= a[y]);
        } else if x >= a.len() {
            assert(b[x - a.len()] <= b[y - a.len()]);
        } else {
            assert(a[x] <= b[y - a.len()]);
        }
    }
}

proof fn lemma_progress_value_lt(i: int, n: int)
    requires
        0 <= i < n,
    ensures
        0 <= i * 600 / n < 600,
{
    vstd::arithmetic::mul::lemma_mul_inequality(i, n - 1, 600);
    vstd::arithmetic::mul::lemma_mul_nonnegative(i, 600);
    vstd::arithmetic::div_mod::lemma_div_pos_is_pos(i * 600, n);
    vstd::arithmetic::div_mod::lemma_div_is_ordered(i * 600, 600 * n - 1, n);
    vstd::arithmetic::div_mod::lemma_fundamental_div_mod_converse(600 * n - 1, n, 599, n - 1);
}

proof fn lemma_progress_value_ordered(i: int, j: int, n: int)
    requires
        0 <= i <= j,
        0 < n,
    ensures
        i * 600 / n <= j * 600 / n,
{
    vstd::arithmetic::mul::lemma_mul_inequality(i, j, 600);
    vstd::arithmetic::div_mod::lemma_div_is_ordered(i * 600, j * 600, n);
}

/// The one progress value segment `i` emits, when it is valid.
proof fn lemma_seg_progress(c: PlanCfg, segs: Seq<Segment>, n: int, i: int)
    ensures
        spec_progress_values(spec_seg_steps(c, segs, n, i)) == if seg_valid(segs[i]) {
            seq![(i * 600 / n) as nat]
        } else {
            Seq::<nat>::empty()
        },
{
    if seg_valid(segs[i]) {
        let ss = spec_seg_steps(c, segs, n, i);
        let p = StepView::Progress { permille: (i * 600 / n) as nat };
        let r = StepView::Render {
            command: crate::pipeline::spec_render_cmd(c, segs, i),
            artifact: crate::paths::spec_segment_artifact(c.dir, c.run, i as nat, c.fmt),
        };
        let head: Seq<StepView> = match crate::pipeline::spec_sub_path(c, segs, i) {
            Some(pth) => seq![
                StepView::WriteSubtitle {
                    path: pth,
                    content: crate::subtitle::spec_srt_content(
                        segs[i].content->0@,
                        crate::pipeline::spec_seg_dur_ms(segs[i]) / 1000,
                    ),
                },
            ],
            None => Seq::empty(),
        };
        assert(ss == head + seq![p, r]);
        lemma_progress_concat(head, seq![p, r]);
        assert(seq![p, r] =~= seq![p] + seq![r]);
        lemma_progress_concat(seq![p], seq![r]);
        lemma_pv_single(p);
        lemma_pv_single(r);
        match crate::pipeline::spec_sub_path(c, segs, i) {
            Some(pth) => {
                assert(head.len() == 1);
                lemma_pv_single(head.last());
                assert(head =~= seq![head.last()]);
            },
            None => {},
        }
        assert(spec_progress_values(ss) =~= seq![(i * 600 / n) as nat]);
    }
}

proof fn lemma_render_progress(c: PlanCfg, segs: Seq<Segment>, n: int, upto: int)
    requires
        0 < n,
        0 <= upto <= n,
    ensures
        ({
            let p = spec_progress_values(spec_render_steps(c, segs, n, upto));
            &&& monotone(p)
            &&& forall|k: int| 0 <= k < p.len() ==> #[trigger] p[k] < 600
        }),
    decreases upto,
{
    if upto > 0 {
        lemma_render_progress(c, segs, n, upto - 1);
        lemma_progress_concat(
            spec_render_steps(c, segs, n, upto - 1),
            spec_seg_steps(c, segs, n, upto - 1),
        );
        lemma_seg_progress(c, segs, n, upto - 1);
        let prev = spec_progress_values(spec_render_steps(c, segs, n, upto - 1));
        let here = spec_progress_values(spec_seg_steps(c, segs, n, upto - 1));
        lemma_progress_value_lt(upto - 1, n);
        assert forall|x: int, y: int|
            0 <= x < prev.len() && 0 <= y < here.len() implies prev[x] <= here[y] by {
            lemma_prev_value_bounded(c, segs, n, upto - 1, x);
        }
        lemma_monotone_concat(prev, here);
    }
}

/// Every progress value among the first `upto` segments is at most the value
/// segment `upto` itself would emit.
proof fn lemma_prev_value_bounded(c: PlanCfg, segs: Seq<Segment>, n: int, upto: int, x: int)
    requires
        0 < n,
        0 <= upto <= n,
        0 <= x < spec_progress_values(spec_render_steps(c, segs, n, upto)).len(),
    ensures
        spec_progress_values(spec_render_steps(c, segs, n, upto))[x] <= upto * 600 / n,
    decreases upto,
{
    if upto > 0 {
        lemma_progress_concat(
            spec_render_steps(c, segs, n, upto - 1),
            spec_seg_steps(c, segs, n, upto - 1),
        );
        lemma_seg_progress(c, segs, n, upto - 1);
        let prev = spec_progress_values(spec_render_steps(c, segs, n, upto - 1));
        if x < prev.len() {
            lemma_prev_value_bounded(c, segs, n, upto - 1, x);
            lemma_progress_value_ordered(upto - 1, upto, n);
        } else {
            lemma_progress_value_ordered(upto - 1, upto, n);
        }
    }
}

proof fn lemma_trans_progress_empty(c: PlanCfg, rendered: Seq<Seq<char>>, upto: int)
    ensures
        spec_progress_values(spec_trans_steps(c, rendered, upto)) == Seq::<nat>::empty(),
    decreases upto,
{
    if upto > 0 {
        lemma_trans_progress_empty(c, rendered, upto - 1);
        let j = upto - 1;
        let art = spec_transition_artifact(c.dir, c.run, j as nat, c.fmt);
        lemma_progress_concat(spec_trans_steps(c, rendered, j), seq![
            StepView::Transition {
                command: crate::command::spec_transition_command(
                    c.kind,
                    rendered[j],
                    rendered[j + 1],
                    c.tdur,
                    art,
                ),
                artifact: art,
            },
        ]);
        let elem = StepView::Transition {
            command: crate::command::spec_transition_command(
                c.kind,
                rendered[j],
                rendered[j + 1],
                c.tdur,
                art,
            ),
            artifact: art,
        };
        assert(spec_trans_steps(c, rendered, upto) == spec_trans_steps(c, rendered, j) + seq![
            elem,
        ]);
        lemma_pv_single(elem);
        assert(spec_progress_values(spec_trans_steps(c, rendered, upto)) =~= Seq::<nat>::empty());
    }
}

proof fn lemma_tail_progress(c: PlanCfg, segs: Seq<Segment>)
    ensures
        spec_progress_values(spec_tail_steps(c, segs)) == seq![900nat, 1000nat],
{
    let t = spec_tail_steps(c, segs);
    let a = t[0];
    let b = t[1];
    let d = t[2];
    let e = t[3];
    assert(t =~= (seq![a] + seq![b]) + (seq![d] + seq![e]));
    lemma_progress_concat(seq![a] + seq![b], seq![d] + seq![e]);
    lemma_progress_concat(seq![a], seq![b]);
    lemma_progress_concat(seq![d], seq![e]);
    lemma_pv_single(a);
    lemma_pv_single(b);
    lemma_pv_single(d);
    lemma_pv_single(e);
    assert(spec_progress_values(t) =~= seq![900nat, 1000nat]);
}

proof fn lemma_mid_progress(c: PlanCfg, segs: Seq<Segment>)
    ensures
        ({
            let p = spec_progress_values(spec_mid_steps(c, segs));
            p == if spec_mid_steps(c, segs).len() == 0 {
                Seq::<nat>::empty()
            } else {
                seq![700nat]
            }
        }),
{
    let r = spec_rendered(c, segs, segs.len() as int);
    if crate::pipeline::spec_transitions_on(c, r.len()) {
        let p700 = seq![StepView::Progress { permille: 700nat }];
        lemma_progress_concat(p700, spec_trans_steps(c, r, r.len() - 1));
        lemma_trans_progress_empty(c, r, r.len() - 1);
        lemma_pv_single(StepView::Progress { permille: 700nat });
        assert(spec_progress_values(p700) =~= seq![700nat]);
        assert(spec_progress_values(spec_mid_steps(c, segs)) =~= seq![700nat]);
        lemma_trans_len(c, r.len() - 1);
        assert(spec_mid_steps(c, segs).len() > 0);
    }
}

/// There are exactly `upto` composited artifacts for the first `upto` pairs.
proof fn lemma_trans_len(c: PlanCfg, upto: int)
    requires
        0 <= upto,
    ensures
        spec_trans_artifacts(c, upto).len() == upto,
    decreases upto,
{
    if upto > 0 {
        lemma_trans_len(c, upto - 1);
    }
}

/// Progress fractions of one planned run are non-decreasing and end at
/// exactly completion (one thousand thousandths) on the success path.
pub proof fn lemma_progress_monotone_and_complete(c: PlanCfg, segs: Seq<Segment>)
    ensures
        ({
            let p = spec_progress_values(spec_plan_steps(c, segs));
            &&& p.len() > 0
            &&& p[p.len() - 1] == 1000
            &&& monotone(p)
        }),
{
    let n = segs.len() as int;
    let renders = spec_render_steps(c, segs, n, n);
    let mid = spec_mid_steps(c, segs);
    let tail = spec_tail_steps(c, segs);
    assert(spec_plan_steps(c, segs) == renders + mid + tail);
    lemma_progress_concat(renders + mid, tail);
    lemma_progress_concat(renders, mid);
    lemma_tail_progress(c, segs);
    lemma_mid_progress(c, segs);
    let pr = spec_progress_values(renders);
    let pm = spec_progress_values(mid);
    let pt = spec_progress_values(tail);
    if n > 0 {
        lemma_render_progress(c, segs, n, n);
    }
    assert(monotone(pr));
    assert(monotone(pm));
    assert(monotone(pt));
    lemma_monotone_concat(pr, pm);
    lemma_monotone_concat(pr + pm, pt);
    assert(spec_progress_values(spec_plan_steps(c, segs)) == (pr + pm) + pt);
    assert(((pr + pm) + pt).len() >= 2);
    assert(((pr + pm) + pt)[((pr + pm) + pt).len() - 1] == 1000nat);
}

/// A segment whose end does not lie strictly after its start contributes no
/// step at all: it never reaches the renderer.
pub proof fn lemma_invalid_segment_never_rendered(c: PlanCfg, segs: Seq<Segment>, n: int, i: int)
    requires
        !seg_valid(segs[i]),
    ensures
        spec_seg_steps(c, segs, n, i) == Seq::<StepView>::empty(),
{
}

/// With transitions disabled the plan has no transition phase and the final
/// concatenation list is the rendered-segment list unchanged.
pub proof fn lemma_disabled_transition_keeps_list(c: PlanCfg, segs: Seq<Segment>)
    requires
        c.kind == TransitionKind::Disabled,
    ensures
        spec_final_list(c, segs) == spec_rendered(c, segs, segs.len() as int),
        spec_mid_steps(c, segs) == Seq::<StepView>::empty(),
{
}

/// With a transition requested and at least two rendered segments, the final
/// concatenation list is the pairwise-composited artifacts: one fewer than
/// the rendered segments.
pub proof fn lemma_transition_pair_count(c: PlanCfg, segs: Seq<Segment>)
    requires
        c.kind != TransitionKind::Disabled,
        spec_rendered(c, segs, segs.len() as int).len() >= 2,
    ensures
        spec_final_list(c, segs) == spec_trans_artifacts(
            c,
            spec_rendered(c, segs, segs.len() as int).len() - 1,
        ),
        spec_final_list(c, segs).len() == spec_rendered(c, segs, segs.len() as int).len() - 1,
{
    lemma_trans_len(c, spec_rendered(c, segs, segs.len() as int).len() - 1);
}

/// How many render jobs a step list holds.
pub open spec fn spec_render_count(steps: Seq<StepView>) -> nat
    decreases steps.len(),
{
    if steps.len() == 0 {
        0
    } else {
        spec_render_count(steps.drop_last()) + match steps.last() {
            StepView::Render { command, artifact } => 1nat,
            _ => 0nat,
        }
    }
}

proof fn lemma_render_count_concat(a: Seq<StepView>, b: Seq<StepView>)
    ensures
        spec_render_count(a + b) == spec_render_count(a) + spec_render_count(b),
    decreases b.len(),
{
    if b.len() == 0 {
        assert(a + b =~= a);
    } else {
        lemma_render_count_concat(a, b.drop_last());
        assert((a + b).drop_last() =~= a + b.drop_last());
        assert((a + b).last() == b.last());
    }
}

proof fn lemma_rc_single(s: StepView)
    ensures
        spec_render_count(seq![s]) == match s {
            StepView::Render { command, artifact } => 1nat,
            _ => 0nat,
        },
{
    assert(seq![s].drop_last().len() == 0);
    assert(spec_render_count(seq![s].drop_last()) == 0);
    assert(seq![s].last() == s);
}

proof fn lemma_seg_render_count(c: PlanCfg, segs: Seq<Segment>, n: int, i: int)
    ensures
        spec_render_count(spec_seg_steps(c, segs, n, i)) == if seg_valid(segs[i]) {
            1nat
        } else {
            0nat
        },
{
    if seg_valid(segs[i]) {
        let p = StepView::Progress { permille: (i * 600 / n) as nat };
        let r = StepView::Render {
            command: crate::pipeline::spec_render_cmd(c, segs, i),
            artifact: crate::paths::spec_segment_artifact(c.dir, c.run, i as nat, c.fmt),
        };
        let head: Seq<StepView> = match crate::pipeline::spec_sub_path(c, segs, i) {
            Some(pth) => seq![
                StepView::WriteSubtitle {
                    path: pth,
                    content: crate::subtitle::spec_srt_content(
                        segs[i].content->0@,
                        crate::pipeline::spec_seg_dur_ms(segs[i]) / 1000,
                    ),
                },
            ],
            None => Seq::empty(),
        };
        assert(spec_seg_steps(c, segs, n, i) == head + seq![p, r]);
        lemma_render_count_concat(head, seq![p, r]);
        assert(seq![p, r] =~= seq![p] + seq![r]);
        lemma_render_count_concat(seq![p], seq![r]);
        lemma_rc_single(p);
        lemma_rc_single(r);
        match crate::pipeline::spec_sub_path(c, segs, i) {
            Some(pth) => {
                lemma_rc_single(head.last());
                assert(head =~= seq![head.last()]);
            },
            None => {},
        }
    }
}

proof fn lemma_render_steps_count(c: PlanCfg, segs: Seq<Segment>, n: int, upto: int)
    ensures
        spec_render_count(spec_render_steps(c, segs, n, upto)) == spec_valid_count(segs, upto),
    decreases upto,
{
    if upto > 0 {
        lemma_render_steps_count(c, segs, n, upto - 1);
        lemma_render_count_concat(
            spec_render_steps(c, segs, n, upto - 1),
            spec_seg_steps(c, segs, n, upto - 1),
        );
        lemma_seg_render_count(c, segs, n, upto - 1);
    }
}

proof fn lemma_trans_render_count(c: PlanCfg, rendered: Seq<Seq<char>>, upto: int)
    ensures
        spec_render_count(spec_trans_steps(c, rendered, upto)) == 0,
    decreases upto,
{
    if upto > 0 {
        lemma_trans_render_count(c, rendered, upto - 1);
        let j = upto - 1;
        let art = spec_transition_artifact(c.dir, c.run, j as nat, c.fmt);
        let elem = StepView::Transition {
            command: crate::command::spec_transition_command(
                c.kind,
                rendered[j],
                rendered[j + 1],
                c.tdur,
                art,
            ),
            artifact: art,
        };
        assert(spec_trans_steps(c, rendered, upto) == spec_trans_steps(c, rendered, j) + seq![
            elem,
        ]);
        lemma_render_count_concat(spec_trans_steps(c, rendered, j), seq![elem]);
        lemma_rc_single(elem);
    }
}

/// One run renders exactly the segments that survive validation: the plan
/// holds one render job per valid segment and none for a dropped one.
pub proof fn lemma_renders_match_valid_segments(c: PlanCfg, segs: Seq<Segment>)
    ensures
        spec_render_count(spec_plan_steps(c, segs)) == spec_valid_count(segs, segs.len() as int),
{
    let n = segs.len() as int;
    let renders = spec_render_steps(c, segs, n, n);
    let mid = spec_mid_steps(c, segs);
    let tail = spec_tail_steps(c, segs);
    lemma_render_count_concat(renders + mid, tail);
    lemma_render_count_concat(renders, mid);
    lemma_render_steps_count(c, segs, n, n);
    let r = spec_rendered(c, segs, n);
    if crate::pipeline::spec_transitions_on(c, r.len()) {
        let p700 = seq![StepView::Progress { permille: 700nat }];
        lemma_render_count_concat(p700, spec_trans_steps(c, r, r.len() - 1));
        lemma_trans_render_count(c, r, r.len() - 1);
        lemma_rc_single(StepView::Progress { permille: 700nat });
        assert(p700 =~= seq![StepView::Progress { permille: 700nat }]);
        assert(spec_render_count(mid) == 0);
    }
    let a = tail[0];
    let b = tail[1];
    let d = tail[2];
    let e = tail[3];
    assert(tail =~= (seq![a] + seq![b]) + (seq![d] + seq![e]));
    lemma_render_count_concat(seq![a] + seq![b], seq![d] + seq![e]);
    lemma_render_count_concat(seq![a], seq![b]);
    lemma_render_count_concat(seq![d], seq![e]);
    lemma_rc_single(a);
    lemma_rc_single(b);
    lemma_rc_single(d);
    lemma_rc_single(e);
    assert(spec_render_count(tail) == 0);
}

/// The path a step creates on disk, if any.  The final concatenation writes
/// the product itself, which is not an intermediate.
pub open spec fn step_creates(s: StepView) -> Option<Seq<char>> {
    match s {
        StepView::WriteSubtitle { path, content } => Some(path),
        StepView::Render { command, artifact } => Some(artifact),
        StepView::Transition { command, artifact } => Some(artifact),
        StepView::WriteManifest { path, content } => Some(path),
        _ => None,
    }
}

proof fn lemma_contains_left<A>(s: Seq<A>, t: Seq<A>, x: A)
    requires
        s.contains(x),
    ensures
        (s + t).contains(x),
{
    let i = choose|i: int| 0 <= i < s.len() && s[i] == x;
    assert((s + t)[i] == x);
}

proof fn lemma_contains_right<A>(s: Seq<A>, t: Seq<A>, x: A)
    requires
        t.contains(x),
    ensures
        (s + t).contains(x),
{
    let i = choose|i: int| 0 <= i < t.len() && t[i] == x;
    assert((s + t)[s.len() + i] == x);
}

/// Everything the first `upto` segments create lies in their rendered or
/// caption-file lists.
proof fn lemma_render_created(c: PlanCfg, segs: Seq<Segment>, n: int, upto: int)
    ensures
        forall|k: int|
            0 <= k < spec_render_steps(c, segs, n, upto).len() && step_creates(
                #[trigger] spec_render_steps(c, segs, n, upto)[k],
            ) is Some ==> spec_rendered(c, segs, upto).contains(
                step_creates(spec_render_steps(c, segs, n, upto)[k])->0,
            ) || spec_subfiles(c, segs, upto).contains(
                step_creates(spec_render_steps(c, segs, n, upto)[k])->0,
            ),
    decreases upto,
{
    if upto > 0 {
        lemma_render_created(c, segs, n, upto - 1);
        let prev = spec_render_steps(c, segs, n, upto - 1);
        let here = spec_seg_steps(c, segs, n, upto - 1);
        let all = spec_render_steps(c, segs, n, upto);
        assert(all == prev + here);
        assert forall|k: int|
            0 <= k < all.len() && step_creates(#[trigger] all[k]) is Some implies spec_rendered(
            c,
            segs,
            upto,
        ).contains(step_creates(all[k])->0) || spec_subfiles(c, segs, upto).contains(
            step_creates(all[k])->0,
        ) by {
            if k < prev.len() {
                assert(all[k] == prev[k]);
                if spec_rendered(c, segs, upto - 1).contains(step_creates(prev[k])->0) {
                    lemma_contains_left(
                        spec_rendered(c, segs, upto - 1),
                        spec_rendered(c, segs, upto).subrange(
                            spec_rendered(c, segs, upto - 1).len() as int,
                            spec_rendered(c, segs, upto).len() as int,
                        ),
                        step_creates(prev[k])->0,
                    );
                    assert(spec_rendered(c, segs, upto - 1) + spec_rendered(
                        c,
                        segs,
                        upto,
                    ).subrange(
                        spec_rendered(c, segs, upto - 1).len() as int,
                        spec_rendered(c, segs, upto).len() as int,
                    ) =~= spec_rendered(c, segs, upto));
                } else {
                    assert(spec_subfiles(c, segs, upto - 1).contains(step_creates(prev[k])->0));
                    lemma_contains_left(
                        spec_subfiles(c, segs, upto - 1),
                        spec_subfiles(c, segs, upto).subrange(
                            spec_subfiles(c, segs, upto - 1).len() as int,
                            spec_subfiles(c, segs, upto).len() as int,
                        ),
                        step_creates(prev[k])->0,
                    );
                    assert(spec_subfiles(c, segs, upto - 1) + spec_subfiles(c, segs, upto).subrange(
                        spec_subfiles(c, segs, upto - 1).len() as int,
                        spec_subfiles(c, segs, upto).len() as int,
                    ) =~= spec_subfiles(c, segs, upto));
                }
            } else {
                assert(seg_valid(segs[upto - 1]));
                assert(all[k] == here[k - prev.len()]);
                let art = crate::paths::spec_segment_artifact(c.dir, c.run, (upto - 1) as nat, c.fmt);
                assert(spec_rendered(c, segs, upto) == spec_rendered(c, segs, upto - 1) + seq![art]);
                match crate::pipeline::spec_sub_path(c, segs, upto - 1) {
                    Some(pth) => {
                        assert(spec_subfiles(c, segs, upto) == spec_subfiles(c, segs, upto - 1)
                            + seq![pth]);
                        assert(here.len() == 3);
                        if k - prev.len() == 0 {
                            assert(step_creates(here[0])->0 == pth);
                            assert(seq![pth][0] == pth);
                            lemma_contains_right(spec_subfiles(c, segs, upto - 1), seq![pth], pth);
                        } else if k - prev.len() == 2 {
                            assert(step_creates(here[2])->0 == art);
                            assert(seq![art][0] == art);
                            lemma_contains_right(spec_rendered(c, segs, upto - 1), seq![art], art);
                        }
                    },
                    None => {
                        assert(here.len() == 2);
                        if k - prev.len() == 1 {
                            assert(step_creates(here[1])->0 == art);
                            assert(seq![art][0] == art);
                            lemma_contains_right(spec_rendered(c, segs, upto - 1), seq![art], art);
                        }
                    },
                }
            }
        }
    }
}

proof fn lemma_trans_artifact_index(c: PlanCfg, upto: int, k: int)
    requires
        0 <= k < upto,
    ensures
        spec_trans_artifacts(c, upto).len() == upto,
        spec_trans_artifacts(c, upto)[k] == spec_transition_artifact(c.dir, c.run, k as nat, c.fmt),
    decreases upto,
{
    lemma_trans_len(c, upto);
    if k < upto - 1 {
        lemma_trans_artifact_index(c, upto - 1, k);
    } else {
        lemma_trans_len(c, upto - 1);
    }
}

/// Every artifact the transition phase creates lies in its artifact list.
proof fn lemma_trans_created(c: PlanCfg, rendered: Seq<Seq<char>>, upto: int)
    requires
        0 <= upto,
    ensures
        spec_trans_steps(c, rendered, upto).len() == upto,
        forall|k: int|
            0 <= k < upto ==> step_creates(#[trigger] spec_trans_steps(c, rendered, upto)[k])
                == Some(spec_transition_artifact(c.dir, c.run, k as nat, c.fmt)),
    decreases upto,
{
    if upto > 0 {
        lemma_trans_created(c, rendered, upto - 1);
        let j = upto - 1;
        let art = spec_transition_artifact(c.dir, c.run, j as nat, c.fmt);
        let elem = StepView::Transition {
            command: crate::command::spec_transition_command(
                c.kind,
                rendered[j],
                rendered[j + 1],
                c.tdur,
                art,
            ),
            artifact: art,
        };
        assert(spec_trans_steps(c, rendered, upto) == spec_trans_steps(c, rendered, j) + seq![
            elem,
        ]);
        assert forall|k: int| 0 <= k < upto implies step_creates(
            #[trigger] spec_trans_steps(c, rendered, upto)[k],
        ) == Some(spec_transition_artifact(c.dir, c.run, k as nat, c.fmt)) by {
            if k < j {
                assert(spec_trans_steps(c, rendered, upto)[k] == spec_trans_steps(
                    c,
                    rendered,
                    j,
                )[k]);
            } else {
                assert(spec_trans_steps(c, rendered, upto)[k] == elem);
            }
        }
    }
}

/// After any run, every path a step created — rendered artifacts, composited
/// artifacts, caption files, and the manifest — stands in the cleanup list,
/// which the run deletes on success and failure alike.
pub proof fn lemma_cleanup_covers_created(c: PlanCfg, segs: Seq<Segment>)
    ensures
        forall|k: int|
            0 <= k < spec_plan_steps(c, segs).len() && step_creates(
                #[trigger] spec_plan_steps(c, segs)[k],
            ) is Some ==> crate::pipeline::spec_cleanup(c, segs).contains(
                step_creates(spec_plan_steps(c, segs)[k])->0,
            ),
{
    let n = segs.len() as int;
    let renders = spec_render_steps(c, segs, n, n);
    let mid = spec_mid_steps(c, segs);
    let tail = spec_tail_steps(c, segs);
    let plan = spec_plan_steps(c, segs);
    let r = spec_rendered(c, segs, n);
    let subs = spec_subfiles(c, segs, n);
    let t: Seq<Seq<char>> = if crate::pipeline::spec_transitions_on(c, r.len()) {
        spec_trans_artifacts(c, r.len() - 1)
    } else {
        Seq::empty()
    };
    let manifest = crate::paths::spec_manifest_file(c.dir, c.run);
    let cleanup = crate::pipeline::spec_cleanup(c, segs);
    assert(cleanup == r + t + subs + seq![manifest]);
    lemma_render_created(c, segs, n, n);
    assert forall|k: int|
        0 <= k < plan.len() && step_creates(#[trigger] plan[k]) is Some implies cleanup.contains(
        step_creates(plan[k])->0,
    ) by {
        let x = step_creates(plan[k])->0;
        if k < renders.len() {
            assert(plan[k] == renders[k]);
            if r.contains(x) {
                lemma_contains_left(r, t, x);
                lemma_contains_left(r + t, subs, x);
                lemma_contains_left(r + t + subs, seq![manifest], x);
            } else {
                assert(subs.contains(x));
                lemma_contains_right(r + t, subs, x);
                lemma_contains_left(r + t + subs, seq![manifest], x);
            }
        } else if k < renders.len() + mid.len() {
            assert(crate::pipeline::spec_transitions_on(c, r.len()));
            assert(plan[k] == mid[k - renders.len()]);
            let p700 = seq![StepView::Progress { permille: 700nat }];
            assert(mid == p700 + spec_trans_steps(c, r, r.len() - 1));
            lemma_trans_created(c, r, r.len() - 1);
            if k - renders.len() == 0 {
                assert(step_creates(mid[0]) is None);
            } else {
                let j = k - renders.len() - 1;
                assert(mid[k - renders.len()] == spec_trans_steps(c, r, r.len() - 1)[j]);
                assert(x == spec_transition_artifact(c.dir, c.run, j as nat, c.fmt));
                lemma_trans_artifact_index(c, r.len() - 1, j);
                assert(t.contains(x));
                lemma_contains_right(r, t, x);
                lemma_contains_left(r + t, subs, x);
                lemma_contains_left(r + t + subs, seq![manifest], x);
            }
        } else {
            let k2 = k - renders.len() - mid.len();
            assert(plan[k] == tail[k2]);
            if k2 == 0 {
                assert(x == manifest);
                assert((seq![manifest])[0] == manifest);
                lemma_contains_right(r + t + subs, seq![manifest], manifest);
            } else {
                assert(step_creates(tail[k2]) is None);
            }
        }
    }
}

} // verus!
