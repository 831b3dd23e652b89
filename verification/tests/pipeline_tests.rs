use blazecut::pipeline::{
    build_plan, build_preview_plan, EditRequest, PipelineError, Plan, PreviewRequest, Segment,
    Step,
};

fn seg(start_ms: u64, end_ms: u64) -> Segment {
    Segment { start_ms, end_ms, content: None, type_field: None }
}

fn seg_with_text(start_ms: u64, end_ms: u64, text: &str) -> Segment {
    Segment { start_ms, end_ms, content: Some(text.to_string()), type_field: None }
}

fn base_request(segments: Vec<Segment>) -> EditRequest {
    EditRequest {
        input_path: "/videos/in.mp4".to_string(),
        output_path: "/videos/out.mp4".to_string(),
        segments,
        quality: None,
        format: None,
        transition: None,
        transition_duration_ms: None,
        volume_milli: None,
        add_subtitles: None,
    }
}

fn progress_values(plan: &Plan) -> Vec<u32> {
    let mut values = Vec::new();
    for step in &plan.steps {
        if let Step::Progress { permille } = step {
            values.push(*permille);
        }
    }
    values
}

fn render_artifacts(plan: &Plan) -> Vec<String> {
    let mut arts = Vec::new();
    for step in &plan.steps {
        if let Step::Render { artifact, .. } = step {
            arts.push(artifact.clone());
        }
    }
    arts
}

fn transition_artifacts(plan: &Plan) -> Vec<String> {
    let mut arts = Vec::new();
    for step in &plan.steps {
        if let Step::Transition { artifact, .. } = step {
            arts.push(artifact.clone());
        }
    }
    arts
}

fn manifest_content(plan: &Plan) -> String {
    for step in &plan.steps {
        if let Step::WriteManifest { content, .. } = step {
            return content.clone();
        }
    }
    panic!("plan without a manifest step");
}

#[test]
fn all_invalid_segments_fail_before_any_job() {
    let req = base_request(vec![seg(5000, 5000), seg(9000, 3000)]);
    let r = build_plan(&req, "/working/blazecut_temp", 7);
    assert!(matches!(r, Err(PipelineError::InvalidRequest)));
}

#[test]
fn empty_segment_list_fails() {
    let req = base_request(vec![]);
    let r = build_plan(&req, "/working/blazecut_temp", 7);
    assert!(matches!(r, Err(PipelineError::InvalidRequest)));
}

#[test]
fn invalid_segments_are_skipped_not_rendered() {
    let req = base_request(vec![seg(0, 1000), seg(8000, 2000), seg(3000, 4000)]);
    let plan = build_plan(&req, "/working/blazecut_temp", 7).unwrap();
    let arts = render_artifacts(&plan);
    // The middle segment is dropped; artifact names keep the request's segment indices.
    assert_eq!(arts.len(), 2);
    assert_eq!(arts[0], "/working/blazecut_temp/segment_7_0.mp4");
    assert_eq!(arts[1], "/working/blazecut_temp/segment_7_2.mp4");
}

#[test]
fn progress_is_monotone_and_ends_complete() {
    let mut req = base_request(vec![seg(0, 1000), seg(1000, 2000), seg(2000, 3000)]);
    req.transition = Some("fade".to_string());
    let plan = build_plan(&req, "/working/blazecut_temp", 7).unwrap();
    let p = progress_values(&plan);
    assert!(p.len() >= 2);
    for w in p.windows(2) {
        assert!(w[0] <= w[1]);
    }
    assert_eq!(*p.last().unwrap(), 1000);
}

#[test]
fn progress_fractions_match_milestones() {
    let req = base_request(vec![seg(0, 1000), seg(1000, 2000), seg(2000, 3000)]);
    let plan = build_plan(&req, "/working/blazecut_temp", 7).unwrap();
    // Three valid segments of three: renders at 0/3, 1/3 and 2/3 of 0.6,
    // then 0.9 before the final encode and 1.0 on completion.
    assert_eq!(progress_values(&plan), vec![0, 200, 400, 900, 1000]);
}

#[test]
fn no_transition_keeps_rendered_list_unchanged() {
    let mut req = base_request(vec![seg(0, 1000), seg(1000, 2000), seg(2000, 3000)]);
    req.transition = Some("none".to_string());
    let plan = build_plan(&req, "/working/blazecut_temp", 7).unwrap();
    assert_eq!(transition_artifacts(&plan).len(), 0);
    let manifest = manifest_content(&plan);
    assert_eq!(
        manifest,
        "file '/working/blazecut_temp/segment_7_0.mp4'\n\
         file '/working/blazecut_temp/segment_7_1.mp4'\n\
         file '/working/blazecut_temp/segment_7_2.mp4'\n"
    );
}

#[test]
fn fade_with_three_segments_yields_two_pairwise_composites() {
    let mut req = base_request(vec![seg(0, 1000), seg(1000, 2000), seg(2000, 3000)]);
    req.transition = Some("fade".to_string());
    let plan = build_plan(&req, "/working/blazecut_temp", 7).unwrap();
    let trans = transition_artifacts(&plan);
    assert_eq!(trans.len(), 2);
    assert_eq!(trans[0], "/working/blazecut_temp/transition_7_0_1.mp4");
    assert_eq!(trans[1], "/working/blazecut_temp/transition_7_1_2.mp4");
    let manifest = manifest_content(&plan);
    assert_eq!(
        manifest,
        "file '/working/blazecut_temp/transition_7_0_1.mp4'\n\
         file '/working/blazecut_temp/transition_7_1_2.mp4'\n"
    );
}

#[test]
fn single_segment_never_enters_transition_stage() {
    let mut req = base_request(vec![seg(0, 1000)]);
    req.transition = Some("fade".to_string());
    let plan = build_plan(&req, "/working/blazecut_temp", 7).unwrap();
    assert_eq!(transition_artifacts(&plan).len(), 0);
    assert_eq!(progress_values(&plan), vec![0, 900, 1000]);
}

#[test]
fn cleanup_covers_every_created_path() {
    let mut req = base_request(vec![
        seg_with_text(0, 1000, "first"),
        seg(1000, 2000),
        seg_with_text(2000, 3000, "third"),
    ]);
    req.transition = Some("dissolve".to_string());
    req.add_subtitles = Some(true);
    let plan = build_plan(&req, "/working/blazecut_temp", 7).unwrap();
    for step in &plan.steps {
        let created: Option<&String> = match step {
            Step::WriteSubtitle { path, .. } => Some(path),
            Step::Render { artifact, .. } => Some(artifact),
            Step::Transition { artifact, .. } => Some(artifact),
            Step::WriteManifest { path, .. } => Some(path),
            _ => None,
        };
        if let Some(p) = created {
            assert!(plan.cleanup.contains(p), "created path missing from cleanup: {}", p);
        }
    }
}

#[test]
fn subtitles_written_only_when_requested_and_text_present() {
    let mut req = base_request(vec![seg_with_text(0, 75000, "Hello"), seg(75000, 80000)]);
    req.add_subtitles = Some(true);
    let plan = build_plan(&req, "/working/blazecut_temp", 7).unwrap();
    let mut subtitle_steps = Vec::new();
    for step in &plan.steps {
        if let Step::WriteSubtitle { path, content } = step {
            subtitle_steps.push((path.clone(), content.clone()));
        }
    }
    assert_eq!(subtitle_steps.len(), 1);
    assert_eq!(subtitle_steps[0].0, "/working/blazecut_temp/subtitle_7_0.srt");
    assert_eq!(subtitle_steps[0].1, "1\n00:00:00,000 --> 00:01:15,000\nHello\n");
}

#[test]
fn render_command_carries_profile_filters_and_artifact() {
    let mut req = base_request(vec![seg_with_text(1500, 11500, "Cap")]);
    req.format = Some("webm".to_string());
    req.quality = Some("low".to_string());
    req.volume_milli = Some(1500);
    req.add_subtitles = Some(true);
    let plan = build_plan(&req, "/d/blazecut_temp", 9).unwrap();
    let mut commands = Vec::new();
    for step in &plan.steps {
        if let Step::Render { command, .. } = step {
            commands.push(command.clone());
        }
    }
    assert_eq!(commands.len(), 1);
    assert_eq!(
        commands[0],
        "ffmpeg -y -ss 1.5 -i \"/videos/in.mp4\" -t 10 -vf scale=1280:720 -b:v 1M \
         -vf \"volume=1.5,subtitles='/d/blazecut_temp/subtitle_9_0.srt'\" -c:v libvpx-vp9 \
         -c:a aac -strict experimental \"/d/blazecut_temp/segment_9_0.webm\""
    );
}

#[test]
fn concat_command_uses_format_codecs() {
    let mut req = base_request(vec![seg(0, 1000)]);
    req.format = Some("webm".to_string());
    let plan = build_plan(&req, "/d/blazecut_temp", 9).unwrap();
    let mut concat = None;
    for step in &plan.steps {
        if let Step::Concat { command } = step {
            concat = Some(command.clone());
        }
    }
    assert_eq!(
        concat.unwrap(),
        "ffmpeg -y -f concat -safe 0 -i \"/d/blazecut_temp/segments_9.txt\" -c:v libvpx-vp9 \
         -c:a libopus -strict -2 \"/videos/out.mp4\""
    );
}

#[test]
fn fade_transition_command_holds_duration_and_pair() {
    let mut req = base_request(vec![seg(0, 1000), seg(1000, 2000)]);
    req.transition = Some("fade".to_string());
    req.transition_duration_ms = Some(2000);
    let plan = build_plan(&req, "/d/blazecut_temp", 9).unwrap();
    let mut commands = Vec::new();
    for step in &plan.steps {
        if let Step::Transition { command, .. } = step {
            commands.push(command.clone());
        }
    }
    assert_eq!(commands.len(), 1);
    assert_eq!(
        commands[0],
        "ffmpeg -y -i \"/d/blazecut_temp/segment_9_0.mp4\" -i \"/d/blazecut_temp/segment_9_1.mp4\" \
         -filter_complex \"[0:v]format=pix_fmts=yuva420p,fade=t=out:st=2:d=2:alpha=1[fv1];\
         [1:v]format=pix_fmts=yuva420p,fade=t=in:st=0:d=2:alpha=1[fv2];\
         [fv1][fv2]overlay=format=yuv420[outv]\" -map \"[outv]\" \
         \"/d/blazecut_temp/transition_9_0_1.mp4\""
    );
}

#[test]
fn unrecognized_transition_kind_concatenates_pairs() {
    let mut req = base_request(vec![seg(0, 1000), seg(1000, 2000)]);
    req.transition = Some("sparkle".to_string());
    let plan = build_plan(&req, "/d/blazecut_temp", 9).unwrap();
    let mut commands = Vec::new();
    for step in &plan.steps {
        if let Step::Transition { command, .. } = step {
            commands.push(command.clone());
        }
    }
    assert_eq!(commands.len(), 1);
    assert!(commands[0].contains("concat=n=2:v=1:a=0"));
}

#[test]
fn preview_renders_one_segment_with_scale_chain() {
    let req = PreviewRequest {
        input_path: "/videos/in.mp4".to_string(),
        segment: seg_with_text(2000, 7000, "note"),
        transition: None,
        transition_duration_ms: None,
        volume_milli: Some(2000),
        add_subtitles: Some(true),
    };
    let plan = build_preview_plan(&req, "/d/blazecut_preview", 11).unwrap();
    assert_eq!(plan.output_path, "/d/blazecut_preview/preview_11.mp4");
    assert_eq!(plan.cleanup, vec!["/d/blazecut_preview/subtitle_11.srt".to_string()]);
    let mut commands = Vec::new();
    for step in &plan.steps {
        if let Step::Render { command, .. } = step {
            commands.push(command.clone());
        }
    }
    assert_eq!(commands.len(), 1);
    assert_eq!(
        commands[0],
        "ffmpeg -y -ss 2 -i \"/videos/in.mp4\" -t 5 \
         -vf \"scale=1280:720,volume=2,subtitles='/d/blazecut_preview/subtitle_11.srt'\" \
         -c:v libx264 -c:a aac -strict experimental \"/d/blazecut_preview/preview_11.mp4\""
    );
}

#[test]
fn preview_rejects_invalid_time_range() {
    let req = PreviewRequest {
        input_path: "/videos/in.mp4".to_string(),
        segment: seg(7000, 2000),
        transition: None,
        transition_duration_ms: None,
        volume_milli: None,
        add_subtitles: None,
    };
    let r = build_preview_plan(&req, "/d/blazecut_preview", 11);
    assert!(matches!(r, Err(PipelineError::InvalidRequest)));
}

#[test]
fn error_messages_name_the_failure_kind() {
    let e = PipelineError::RenderFailed { detail: "boom".to_string() };
    assert_eq!(e.message(), "segment render failed: boom");
    assert_eq!(PipelineError::ToolNotInstalled.message(), "the media tool is not installed");
    assert_eq!(PipelineError::InvalidRequest.message(), "no valid segments in the request");
    let e = PipelineError::ConcatFailed { detail: "x".to_string() };
    assert_eq!(e.message(), "concatenation failed: x");
    let e = PipelineError::TransitionFailed { detail: "t".to_string() };
    assert_eq!(e.message(), "transition failed: t");
    let e = PipelineError::SubtitleWriteFailed { detail: "s".to_string() };
    assert_eq!(e.message(), "caption file write failed: s");
    let e = PipelineError::IoFailed { detail: "io".to_string() };
    assert_eq!(e.message(), "file operation failed: io");
}
