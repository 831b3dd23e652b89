//! Extraction of video metadata from the inspection tool's JSON report.
//!
//! The JSON document itself is handled by an outside parser and is opaque
//! here; the plain strings and numbers pulled out of it are interpreted by
//! verified parsers with exact contracts.

use vstd::prelude::*;
use vstd::string::StrSliceExecFns;
use vstd::string::StringExecFns;
use crate::fps::{parse_fps, spec_parse_fps, Fps};
use crate::text::{
    parse_u64, spec_char_digit, spec_digits_val, spec_is_digit, spec_is_digits, str_eq,
};

verus! {

/// Metadata of one video file, in plain values: the duration in
/// milliseconds, the frame size, the frame rate as an exact rational, the
/// codec name, and the container bitrate.
#[derive(Clone, Debug)]
pub struct VideoMetadata {
    /// Duration in milliseconds.
    pub duration_ms: u64,
    /// Frame width in pixels.
    pub width: u32,
    /// Frame height in pixels.
    pub height: u32,
    /// Frame rate as an exact rational.
    pub fps: Fps,
    /// Video codec name as reported.
    pub codec: String,
    /// Container bitrate in bits per second.
    pub bitrate: u32,
}

/// `k` is the position of the only `.` in `s`.
pub open spec fn single_dot_at(s: Seq<char>, k: int) -> bool {
    &&& 0 <= k < s.len()
    &&& s[k] == '.'
    &&& forall|j: int| 0 <= j < s.len() && j != k ==> s[j] != '.'
}

/// The value of a fraction part as milliseconds: its first three digits,
/// right-padded with zeros; digits beyond the third are cut off.
pub open spec fn spec_frac_millis(frac: Seq<char>) -> nat {
    let d0: nat = if frac.len() >= 1 {
        spec_char_digit(frac[0])
    } else {
        0
    };
    let d1: nat = if frac.len() >= 2 {
        spec_char_digit(frac[1])
    } else {
        0
    };
    let d2: nat = if frac.len() >= 3 {
        spec_char_digit(frac[2])
    } else {
        0
    };
    d0 * 100 + d1 * 10 + d2
}

/// The duration in milliseconds a report string denotes.  The accepted shape
/// is decimal seconds: digits with at most one dot and a digits-only
/// fraction, which may be empty.  Anything else, and any value too large for
/// a `u64` of milliseconds, counts as zero.
pub open spec fn spec_parse_duration_ms(s: Seq<char>) -> nat {
    if spec_is_digits(s) && spec_digits_val(s) * 1000 + 999 <= u64::MAX {
        spec_digits_val(s) * 1000
    } else if exists|k: int| single_dot_at(s, k) {
        let k = choose|k: int| single_dot_at(s, k);
        let whole = s.subrange(0, k);
        let frac = s.subrange(k + 1, s.len() as int);
        if spec_is_digits(whole) && (frac.len() == 0 || spec_is_digits(frac)) && spec_digits_val(
            whole,
        ) * 1000 + 999 <= u64::MAX {
            spec_digits_val(whole) * 1000 + spec_frac_millis(frac)
        } else {
            0
        }
    } else {
        0
    }
}

/// The first three fraction digits as milliseconds, for a digits-only
/// fraction string.
fn frac_millis(frac: &str) -> (r: u64)
    requires
        frac@.len() == 0 || spec_is_digits(frac@),
    ensures
        r as nat == spec_frac_millis(frac@),
        r <= 999,
{
    let len = frac.unicode_len();
    let d0: u64 = if len >= 1 {
        (frac.get_char(0) as u32 as u64) - ('0' as u32 as u64)
    } else {
        0
    };
    let d1: u64 = if len >= 2 {
        (frac.get_char(1) as u32 as u64) - ('0' as u32 as u64)
    } else {
        0
    };
    let d2: u64 = if len >= 3 {
        (frac.get_char(2) as u32 as u64) - ('0' as u32 as u64)
    } else {
        0
    };
    d0 * 100 + d1 * 10 + d2
}

/// Parses a decimal-seconds report string to milliseconds, as
/// [`spec_parse_duration_ms`] describes.
pub fn parse_duration_ms(s: &str) -> (r: u64)
    ensures
        r as nat == spec_parse_duration_ms(s@),
{
    let len = s.unicode_len();
    let mut dot: Option<usize> = None;
    let mut several = false;
    let mut i: usize = 0;
    while i < len
        invariant
            len == s@.len(),
            i <= len,
            dot is None ==> forall|j: int| 0 <= j < i ==> s@[j] != '.',
            dot matches Some(k) ==> 0 <= k < i && s@[k as int] == '.' && (!several
                ==> forall|j: int| 0 <= j < i && j != k ==> s@[j] != '.'),
            several ==> exists|k1: int, k2: int|
                0 <= k1 < k2 < i && s@[k1] == '.' && s@[k2] == '.',
        decreases len - i,
    {
        if s.get_char(i) == '.' {
            if dot.is_none() {
                dot = Some(i);
            } else {
                several = true;
            }
        }
        i = i + 1;
    }
    if several {
        proof {
            let (k1, k2) = choose|k1: int, k2: int|
                0 <= k1 < k2 < len && s@[k1] == '.' && s@[k2] == '.';
            assert(!spec_is_digit(s@[k1]));
            assert forall|k: int| !single_dot_at(s@, k) by {
                if single_dot_at(s@, k) {
                    assert(k1 == k && k2 == k);
                }
            }
        }
        return 0;
    }
    match dot {
        None => {
            proof {
                assert(forall|k: int| !single_dot_at(s@, k));
            }
            match parse_u64(s) {
                Some(v) => {
                    let ms = (v as u128) * 1000;
                    if ms + 999 <= u64::MAX as u128 {
                        ms as u64
                    } else {
                        0
                    }
                },
                None => {
                    proof {
                        if spec_is_digits(s@) {
                            vstd::arithmetic::mul::lemma_mul_inequality(
                                1,
                                1000,
                                spec_digits_val(s@) as int,
                            );
                        }
                    }
                    0
                },
            }
        },
        Some(k) => {
            proof {
                assert(single_dot_at(s@, k as int));
                let kk = choose|k2: int| single_dot_at(s@, k2);
                assert(kk == k as int);
                assert(!spec_is_digit(s@[k as int]));
            }
            let whole = s.substring_char(0, k);
            let frac = s.substring_char(k + 1, len);
            let frac_len = frac.unicode_len();
            let mut frac_ok = true;
            let mut j: usize = 0;
            while j < frac_len
                invariant
                    frac_len == frac@.len(),
                    j <= frac_len,
                    frac_ok ==> forall|m: int| 0 <= m < j ==> spec_is_digit(#[trigger] frac@[m]),
                    !frac_ok ==> !(frac@.len() == 0 || spec_is_digits(frac@)),
                decreases frac_len - j,
            {
                let ch = frac.get_char(j);
                if ch < '0' || ch > '9' {
                    frac_ok = false;
                    j = frac_len;
                } else {
                    j = j + 1;
                }
            }
            if !frac_ok {
                return 0;
            }
            match parse_u64(whole) {
                Some(v) => {
                    let ms = (v as u128) * 1000;
                    if ms + 999 <= u64::MAX as u128 {
                        let f = frac_millis(frac);
                        (ms as u64) + f
                    } else {
                        0
                    }
                },
                None => {
                    proof {
                        if spec_is_digits(whole@) {
                            vstd::arithmetic::mul::lemma_mul_inequality(
                                1,
                                1000,
                                spec_digits_val(whole@) as int,
                            );
                        }
                    }
                    0
                },
            }
        },
    }
}

/// The bitrate a report string denotes: its digits when they fit a `u32`,
/// zero otherwise.
pub open spec fn spec_parse_u32(s: Seq<char>) -> nat {
    if spec_is_digits(s) && spec_digits_val(s) <= u32::MAX {
        spec_digits_val(s)
    } else {
        0
    }
}

/// Parses a digits-only string to a `u32`, as [`spec_parse_u32`] describes.
pub fn parse_u32_or_zero(s: &str) -> (r: u32)
    ensures
        r as nat == spec_parse_u32(s@),
{
    match parse_u64(s) {
        Some(v) => {
            if v <= u32::MAX as u64 {
                #[verifier::truncate] (v as u32)
            } else {
                0
            }
        },
        None => 0,
    }
}

/// Assembles the metadata record from the plain fields pulled out of the
/// report: every numeric field is interpreted by the verified parsers, and
/// oversized frame dimensions are truncated as a narrowing cast does.
pub fn metadata_from_fields(
    duration: &str,
    width: u64,
    height: u64,
    fps_field: &str,
    codec: String,
    bitrate: &str,
) -> (m: VideoMetadata)
    ensures
        m.duration_ms as nat == spec_parse_duration_ms(duration@),
        m.width == width as u32,
        m.height == height as u32,
        m.fps == spec_parse_fps(fps_field@),
        m.fps.wf(),
        m.codec == codec,
        m.bitrate as nat == spec_parse_u32(bitrate@),
{
    VideoMetadata {
        duration_ms: parse_duration_ms(duration),
        width: #[verifier::truncate] (width as u32),
        height: #[verifier::truncate] (height as u32),
        fps: parse_fps(fps_field),
        codec,
        bitrate: parse_u32_or_zero(bitrate),
    }
}

#[verifier::external_type_specification]
#[verifier::external_body]
pub struct ExJsonValue(serde_json::Value);

/// Relies on `serde_json::from_str::<Value>`: parses a JSON document; the
/// parse error, if any, is carried as its message text.
#[verifier::external_body]
fn parse_json(s: &str) -> Result<serde_json::Value, String> {
    match serde_json::from_str::<serde_json::Value>(s) {
        Ok(v) => Ok(v),
        Err(e) => Err(format!("{}", e)),
    }
}

/// Relies on `serde_json::Value::get`: the member of an object under a key,
/// or nothing when the value is no object or lacks the key.
#[verifier::external_body]
fn json_get<'a>(v: &'a serde_json::Value, key: &str) -> Option<&'a serde_json::Value> {
    v.get(key)
}

/// Relies on `serde_json::Value::as_array`: the elements of an array value.
#[verifier::external_body]
fn json_as_array<'a>(v: &'a serde_json::Value) -> Option<&'a Vec<serde_json::Value>> {
    v.as_array()
}

/// Relies on `serde_json::Value::as_str`: the text of a string value, copied
/// out.
#[verifier::external_body]
fn json_as_string(v: &serde_json::Value) -> Option<String> {
    match v.as_str() {
        Some(s) => Some(s.to_string()),
        None => None,
    }
}

/// Relies on `serde_json::Value::as_u64`: a number value that is an unsigned
/// integer.
#[verifier::external_body]
fn json_as_u64(v: &serde_json::Value) -> Option<u64> {
    v.as_u64()
}

/// One stream entry of the report, as plain values: each field is present
/// or absent as it is in the document.
#[derive(Clone, Debug)]
pub struct StreamRecord {
    /// The stream's kind, `video` or `audio`.
    pub codec_type: Option<String>,
    /// The stream's codec name.
    pub codec_name: Option<String>,
    /// Frame width in pixels.
    pub width: Option<u64>,
    /// Frame height in pixels.
    pub height: Option<u64>,
    /// Frame rate as a `num/den` rational string.
    pub r_frame_rate: Option<String>,
}

/// The whole report as plain values: the stream entries in order, and the
/// container section's duration and bitrate strings.
#[derive(Clone, Debug)]
pub struct ProbeReport {
    /// The stream entries, in report order.
    pub streams: Vec<StreamRecord>,
    /// The container duration, in decimal seconds.
    pub duration: Option<String>,
    /// The container bitrate, in bits per second.
    pub bit_rate: Option<String>,
}

/// The stream is a video stream: its type field reads `video` (an absent
/// field is not one).
pub open spec fn spec_is_video(s: StreamRecord) -> bool {
    match s.codec_type {
        Some(t) => t@ == "video"@,
        None => false,
    }
}

/// `m` is the metadata stream `i` of the report denotes, with the per-field
/// fallbacks: zero for absent dimensions, duration and bitrate, `0/1` for an
/// absent rate, and `unknown` for an absent codec name.
pub open spec fn spec_stream_metadata(report: ProbeReport, i: int, m: VideoMetadata) -> bool {
    let s = report.streams@[i];
    &&& m.width == (match s.width {
        Some(w) => w,
        None => 0,
    }) as u32
    &&& m.height == (match s.height {
        Some(h) => h,
        None => 0,
    }) as u32
    &&& m.fps == spec_parse_fps(
        match s.r_frame_rate {
            Some(r) => r@,
            None => "0/1"@,
        },
    )
    &&& m.codec@ == (match s.codec_name {
        Some(c) => c@,
        None => "unknown"@,
    })
    &&& m.duration_ms as nat == spec_parse_duration_ms(
        match report.duration {
            Some(d) => d@,
            None => "0"@,
        },
    )
    &&& m.bitrate as nat == spec_parse_u32(
        match report.bit_rate {
            Some(b) => b@,
            None => "0"@,
        },
    )
}

/// Interprets a report: the metadata comes from the first video stream, each
/// field through the exact parsers as [`spec_stream_metadata`] describes;
/// fails exactly when no video stream exists, and fabricates no value.
pub fn interpret_report(report: &ProbeReport) -> (r: Result<VideoMetadata, String>)
    ensures
        r is Ok <==> exists|i: int|
            0 <= i < report.streams@.len() && spec_is_video(#[trigger] report.streams@[i]),
        r is Err ==> r->Err_0@ == "no video stream found"@,
        r is Ok ==> exists|i: int|
            {
                &&& 0 <= i < report.streams@.len()
                &&& spec_is_video(#[trigger] report.streams@[i])
                &&& forall|j: int| 0 <= j < i ==> !spec_is_video(report.streams@[j])
                &&& spec_stream_metadata(*report, i, r->Ok_0)
            },
        r is Ok ==> r->Ok_0.fps.wf(),
{
    let n = report.streams.len();
    let mut video: Option<usize> = None;
    let mut i: usize = 0;
    while i < n
        invariant
            n == report.streams@.len(),
            i <= n,
            video is None ==> forall|j: int| 0 <= j < i ==> !spec_is_video(
                #[trigger] report.streams@[j],
            ),
            video matches Some(ix) ==> ix < i && spec_is_video(report.streams@[ix as int])
                && forall|j: int| 0 <= j < ix ==> !spec_is_video(#[trigger] report.streams@[j]),
        decreases n - i,
    {
        if video.is_none() {
            let is_video = match &report.streams[i].codec_type {
                Some(t) => str_eq(t.as_str(), "video"),
                None => false,
            };
            if is_video {
                video = Some(i);
            }
        }
        i = i + 1;
    }
    let ix = match video {
        Some(ix) => ix,
        None => {
            return Err(String::from_str("no video stream found"));
        },
    };
    let s = &report.streams[ix];
    let width: u64 = match s.width {
        Some(w) => w,
        None => 0,
    };
    let height: u64 = match s.height {
        Some(h) => h,
        None => 0,
    };
    let fps_field: String = match &s.r_frame_rate {
        Some(r) => r.clone(),
        None => String::from_str("0/1"),
    };
    let codec: String = match &s.codec_name {
        Some(c) => c.clone(),
        None => String::from_str("unknown"),
    };
    let duration: String = match &report.duration {
        Some(d) => d.clone(),
        None => String::from_str("0"),
    };
    let bitrate: String = match &report.bit_rate {
        Some(b) => b.clone(),
        None => String::from_str("0"),
    };
    let m = metadata_from_fields(
        duration.as_str(),
        width,
        height,
        fps_field.as_str(),
        codec,
        bitrate.as_str(),
    );
    proof {
        assert(spec_stream_metadata(*report, ix as int, m));
    }
    Ok(m)
}

/// A member of an object as text, where both the key and a string value
/// exist.
fn opt_string_field(v: &serde_json::Value, key: &str) -> Option<String> {
    match json_get(v, key) {
        Some(f) => json_as_string(f),
        None => None,
    }
}

/// A member of an object as an unsigned integer, where both the key and an
/// integer value exist.
fn opt_u64_field(v: &serde_json::Value, key: &str) -> Option<u64> {
    match json_get(v, key) {
        Some(f) => json_as_u64(f),
        None => None,
    }
}

/// One stream entry copied out of the document, member for member.
fn stream_record_of(v: &serde_json::Value) -> StreamRecord {
    StreamRecord {
        codec_type: opt_string_field(v, "codec_type"),
        codec_name: opt_string_field(v, "codec_name"),
        width: opt_u64_field(v, "width"),
        height: opt_u64_field(v, "height"),
        r_frame_rate: opt_string_field(v, "r_frame_rate"),
    }
}

/// Parses the inspection tool's JSON report and interprets it.
///
/// The document itself is opaque to the verifier, so this function promises
/// only a well-formed result whatever the parser returned: it parses the
/// text, copies the stream entries and container fields out member for
/// member into a [`ProbeReport`], and hands that to [`interpret_report`],
/// which carries the exact contract (first video stream, per-field
/// fallbacks, the exact field parsers).
pub fn parse_probe_output(json: &str) -> (r: Result<VideoMetadata, String>)
    ensures
        r is Ok ==> r->Ok_0.fps.wf(),
{
    let root = match parse_json(json) {
        Ok(v) => v,
        Err(e) => {
            let mut msg = String::from_str("failed to parse inspection output: ");
            msg.append(e.as_str());
            return Err(msg);
        },
    };
    let streams_value = match json_get(&root, "streams") {
        Some(v) => v,
        None => {
            return Err(String::from_str("no stream information in the report"));
        },
    };
    let arr = match json_as_array(streams_value) {
        Some(a) => a,
        None => {
            return Err(String::from_str("no stream information in the report"));
        },
    };
    let mut streams: Vec<StreamRecord> = Vec::new();
    let mut i: usize = 0;
    while i < arr.len()
        decreases arr@.len() - i,
    {
        streams.push(stream_record_of(&arr[i]));
        i = i + 1;
    }
    let (duration, bit_rate) = match json_get(&root, "format") {
        Some(f) => (opt_string_field(f, "duration"), opt_string_field(f, "bit_rate")),
        None => (None, None),
    };
    let report = ProbeReport { streams, duration, bit_rate };
    interpret_report(&report)
}

} // verus!
