use blazecut::fps::{parse_fps, Fps};
use blazecut::metadata::{
    interpret_report, parse_duration_ms, parse_probe_output, parse_u32_or_zero, ProbeReport,
    StreamRecord,
};
use blazecut::profile::resolve_profile;
use blazecut::text::{first_line, millis_display, parse_u64, two_digits, u64_to_dec};

#[test]
fn fps_rational_is_parsed_exactly() {
    let f = parse_fps("24000/1001");
    assert_eq!(f, Fps { num: 24000, den: 1001 });
    let value = f.num as f64 / f.den as f64;
    assert!((value - 23.976).abs() < 0.001);
}

#[test]
fn fps_zero_denominator_is_zero() {
    assert_eq!(parse_fps("30/0"), Fps { num: 0, den: 1 });
}

#[test]
fn fps_malformed_strings_are_zero() {
    assert_eq!(parse_fps("abc"), Fps { num: 0, den: 1 });
    assert_eq!(parse_fps(""), Fps { num: 0, den: 1 });
    assert_eq!(parse_fps("1/2/3"), Fps { num: 0, den: 1 });
    // A malformed numerator zeroes the rate but keeps the denominator.
    assert_eq!(parse_fps("x/25"), Fps { num: 0, den: 25 });
    // A malformed denominator zeroes the whole rate.
    assert_eq!(parse_fps("30/x"), Fps { num: 0, den: 1 });
    assert_eq!(parse_fps("30/"), Fps { num: 0, den: 1 });
}

#[test]
fn fps_plain_ratio() {
    assert_eq!(parse_fps("30/1"), Fps { num: 30, den: 1 });
    let f = parse_fps("30/1");
    assert!((f.num as f64 / f.den as f64 - 30.0).abs() < 1e-9);
}

#[test]
fn webm_low_profile_uses_vp9_with_scaled_low_bitrate() {
    let p = resolve_profile("webm", "low");
    assert_eq!(p.video_codec, "libvpx-vp9");
    assert_eq!(p.video_params, "-vf scale=1280:720 -b:v 1M");
}

#[test]
fn unknown_format_falls_back_to_h264_family() {
    let p = resolve_profile("avi", "high");
    assert_eq!(p.video_codec, "libx264");
    assert_eq!(p.video_params, "-b:v 8M");
}

#[test]
fn unknown_quality_falls_back_to_medium() {
    let p = resolve_profile("mp4", "extreme");
    assert_eq!(p.video_codec, "libx264");
    assert_eq!(p.video_params, "-vf scale=1920:1080 -b:v 4M -preset fast");
    let q = resolve_profile("webm", "whatever");
    assert_eq!(q.video_params, "-vf scale=1920:1080 -b:v 3M");
}

#[test]
fn mp4_tiers_resolve_to_documented_rows() {
    assert_eq!(resolve_profile("mp4", "low").video_params, "-vf scale=1280:720 -b:v 1.5M -preset fast");
    assert_eq!(resolve_profile("mov", "ultra").video_params, "-b:v 15M -preset slow");
    assert_eq!(resolve_profile("mkv", "low").video_params, "-vf scale=1280:720 -b:v 1.5M");
}

#[test]
fn durations_parse_to_milliseconds() {
    assert_eq!(parse_duration_ms("12.345"), 12345);
    assert_eq!(parse_duration_ms("7"), 7000);
    assert_eq!(parse_duration_ms("1.2"), 1200);
    assert_eq!(parse_duration_ms("1.25"), 1250);
    assert_eq!(parse_duration_ms("5."), 5000);
    assert_eq!(parse_duration_ms("3.14159"), 3141);
    assert_eq!(parse_duration_ms("abc"), 0);
    assert_eq!(parse_duration_ms("1.2.3"), 0);
    assert_eq!(parse_duration_ms(""), 0);
}

#[test]
fn bitrate_parses_or_defaults_to_zero() {
    assert_eq!(parse_u32_or_zero("128000"), 128000);
    assert_eq!(parse_u32_or_zero(""), 0);
    assert_eq!(parse_u32_or_zero("12x"), 0);
    assert_eq!(parse_u32_or_zero("99999999999999"), 0);
}

#[test]
fn probe_report_is_interpreted() {
    let report = r#"{
        "streams": [
            {"codec_type": "audio", "codec_name": "aac"},
            {"codec_type": "video", "codec_name": "h264",
             "width": 1920, "height": 1080, "r_frame_rate": "24000/1001"}
        ],
        "format": {"duration": "63.5", "bit_rate": "4000000"}
    }"#;
    let m = parse_probe_output(report).unwrap();
    assert_eq!(m.width, 1920);
    assert_eq!(m.height, 1080);
    assert_eq!(m.codec, "h264");
    assert_eq!(m.fps, Fps { num: 24000, den: 1001 });
    assert_eq!(m.duration_ms, 63500);
    assert_eq!(m.bitrate, 4000000);
}

#[test]
fn probe_report_without_video_stream_fails() {
    let report = r#"{"streams": [{"codec_type": "audio"}], "format": {}}"#;
    let r = parse_probe_output(report);
    assert!(r.is_err());
    assert_eq!(r.unwrap_err(), "no video stream found");
}

#[test]
fn probe_report_malformed_json_fails() {
    assert!(parse_probe_output("not json").is_err());
}

#[test]
fn probe_report_missing_fields_use_fallbacks() {
    let report = r#"{"streams": [{"codec_type": "video"}]}"#;
    let m = parse_probe_output(report).unwrap();
    assert_eq!(m.width, 0);
    assert_eq!(m.height, 0);
    assert_eq!(m.codec, "unknown");
    assert_eq!(m.fps, Fps { num: 0, den: 1 });
    assert_eq!(m.duration_ms, 0);
    assert_eq!(m.bitrate, 0);
}

#[test]
fn decimal_rendering() {
    assert_eq!(u64_to_dec(0), "0");
    assert_eq!(u64_to_dec(7), "7");
    assert_eq!(u64_to_dec(1234567890), "1234567890");
    assert_eq!(two_digits(5), "05");
    assert_eq!(two_digits(59), "59");
    assert_eq!(two_digits(100), "100");
}

#[test]
fn milliseconds_display_as_seconds() {
    assert_eq!(millis_display(5000), "5");
    assert_eq!(millis_display(1500), "1.5");
    assert_eq!(millis_display(1050), "1.05");
    assert_eq!(millis_display(1234), "1.234");
    assert_eq!(millis_display(5), "0.005");
    assert_eq!(millis_display(0), "0");
}

#[test]
fn digit_strings_parse_with_overflow_check() {
    assert_eq!(parse_u64("0"), Some(0));
    assert_eq!(parse_u64("18446744073709551615"), Some(u64::MAX));
    assert_eq!(parse_u64("18446744073709551616"), None);
    assert_eq!(parse_u64("12a"), None);
    assert_eq!(parse_u64(""), None);
}

#[test]
fn first_line_stops_at_newline() {
    assert_eq!(first_line("ffmpeg version 6.0\nbuilt with gcc"), "ffmpeg version 6.0");
    assert_eq!(first_line("single"), "single");
    assert_eq!(first_line("\nrest"), "");
}

fn stream(codec_type: Option<&str>) -> StreamRecord {
    StreamRecord {
        codec_type: codec_type.map(|s| s.to_string()),
        codec_name: None,
        width: None,
        height: None,
        r_frame_rate: None,
    }
}

#[test]
fn report_interpretation_uses_first_video_stream() {
    let report = ProbeReport {
        streams: vec![
            stream(Some("audio")),
            StreamRecord {
                codec_type: Some("video".to_string()),
                codec_name: Some("h264".to_string()),
                width: Some(1920),
                height: Some(1080),
                r_frame_rate: Some("24000/1001".to_string()),
            },
            StreamRecord {
                codec_type: Some("video".to_string()),
                codec_name: Some("vp9".to_string()),
                width: Some(640),
                height: Some(360),
                r_frame_rate: Some("30/1".to_string()),
            },
        ],
        duration: Some("63.5".to_string()),
        bit_rate: Some("4000000".to_string()),
    };
    let m = interpret_report(&report).unwrap();
    assert_eq!(m.codec, "h264");
    assert_eq!(m.width, 1920);
    assert_eq!(m.height, 1080);
    assert_eq!(m.fps, Fps { num: 24000, den: 1001 });
    assert_eq!(m.duration_ms, 63500);
    assert_eq!(m.bitrate, 4000000);
}

#[test]
fn report_interpretation_applies_fallbacks() {
    let report = ProbeReport {
        streams: vec![stream(Some("video"))],
        duration: None,
        bit_rate: None,
    };
    let m = interpret_report(&report).unwrap();
    assert_eq!(m.codec, "unknown");
    assert_eq!(m.width, 0);
    assert_eq!(m.height, 0);
    assert_eq!(m.fps, Fps { num: 0, den: 1 });
    assert_eq!(m.duration_ms, 0);
    assert_eq!(m.bitrate, 0);
}

#[test]
fn report_without_video_stream_is_an_error() {
    let report = ProbeReport {
        streams: vec![stream(Some("audio")), stream(None)],
        duration: Some("5".to_string()),
        bit_rate: None,
    };
    let r = interpret_report(&report);
    assert_eq!(r.unwrap_err(), "no video stream found");
    let empty = ProbeReport { streams: vec![], duration: None, bit_rate: None };
    assert!(interpret_report(&empty).is_err());
}
