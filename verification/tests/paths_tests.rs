use blazecut::frames::{key_frame_args, key_frame_positions, probe_args, thumbnail_args};
use blazecut::paths::{
    frame_file, is_safe_temp_path, manifest_file, path_join, preview_file, project_file_name,
    random_id, segment_artifact, subtitle_file, thumbnail_file, transition_artifact,
};
use blazecut::subtitle::srt_content;

#[test]
fn unsafe_paths_are_rejected() {
    assert!(!is_safe_temp_path("/home/user/video.mp4"));
    assert!(!is_safe_temp_path(""));
    assert!(!is_safe_temp_path("/etc/passwd"));
}

#[test]
fn temp_and_namespace_markers_are_accepted() {
    assert!(is_safe_temp_path("/var/temp/clip.mp4"));
    assert!(is_safe_temp_path("/work/blazecut_temp/segment_1_0.mp4"));
    assert!(is_safe_temp_path("C:\\temp\\thing.mov"));
    assert!(is_safe_temp_path("blazecut"));
}

#[test]
fn artifact_paths_carry_run_and_index() {
    assert_eq!(segment_artifact("/t", 42, 3, "mp4"), "/t/segment_42_3.mp4");
    assert_eq!(subtitle_file("/t", 42, 3), "/t/subtitle_42_3.srt");
    assert_eq!(transition_artifact("/t", 42, 3, "webm"), "/t/transition_42_3_4.webm");
    assert_eq!(manifest_file("/t", 42), "/t/segments_42.txt");
    assert_eq!(preview_file("/t", 42), "/t/preview_42.mp4");
    assert_eq!(thumbnail_file("/t", 42), "/t/thumb_42.jpg");
    assert_eq!(frame_file("/t", 5), "/t/frame_5.jpg");
    assert_eq!(path_join("/a/b", "c.txt"), "/a/b/c.txt");
}

#[test]
fn distinct_runs_get_distinct_artifacts() {
    let a = segment_artifact("/t", 1, 0, "mp4");
    let b = segment_artifact("/t", 2, 0, "mp4");
    assert_ne!(a, b);
}

#[test]
fn run_ids_are_decimal_digits() {
    let id = random_id();
    assert!(!id.is_empty());
    assert!(id.chars().all(|c| c.is_ascii_digit()));
}

#[test]
fn project_files_are_json_named() {
    assert_eq!(project_file_name("demo"), "demo.json");
}

#[test]
fn caption_file_holds_one_timed_cue() {
    assert_eq!(srt_content("Hello", 75), "1\n00:00:00,000 --> 00:01:15,000\nHello\n");
    assert_eq!(srt_content("x", 5), "1\n00:00:00,000 --> 00:00:05,000\nx\n");
    // Long durations spill into the minutes field, never into hours.
    assert_eq!(srt_content("y", 7205), "1\n00:00:00,000 --> 00:120:05,000\ny\n");
}

#[test]
fn key_frame_positions_divide_the_clip_evenly() {
    assert_eq!(key_frame_positions(10000, 4), vec![2000, 4000, 6000, 8000]);
    assert_eq!(key_frame_positions(9000, 2), vec![3000, 6000]);
    assert_eq!(key_frame_positions(1000, 0), Vec::<u64>::new());
}

#[test]
fn frame_grab_arguments_are_in_tool_order() {
    let args = key_frame_args("/v/in.mp4", 2500, "/t/frame_1.jpg");
    assert_eq!(
        args,
        vec!["-ss", "2.5", "-i", "/v/in.mp4", "-vframes", "1", "-q:v", "2", "-f", "image2",
            "/t/frame_1.jpg"]
    );
}

#[test]
fn thumbnail_arguments_scale_and_seek() {
    let args = thumbnail_args("/v/in.mp4", "/t/thumb_9.jpg");
    assert_eq!(
        args,
        vec!["-ss", "15%", "-i", "/v/in.mp4", "-vframes", "1", "-vf", "scale=320:-1", "-q:v",
            "2", "-f", "image2", "/t/thumb_9.jpg"]
    );
}

#[test]
fn probe_arguments_request_the_json_report() {
    let args = probe_args("/v/in.mp4");
    assert_eq!(
        args,
        vec!["-v", "quiet", "-print_format", "json", "-show_format", "-show_streams",
            "/v/in.mp4"]
    );
}
