//! The video filter chain: an ordered list of typed filter descriptors with a
//! single serialization step, instead of incremental string concatenation.

use vstd::prelude::*;
use vstd::string::StringExecFns;
use crate::text::{millis_display, spec_millis_display};

verus! {

/// One filter of the chain handed to the external tool.
#[derive(Clone, Debug)]
pub enum FilterStep {
    /// Volume adjustment; the factor is in thousandths (`1500` is 1.5x).
    Volume { volume_milli: u64 },
    /// Caption overlay from a caption file at the given path.
    Subtitles { path: String },
    /// Fixed preview downscale to 1280x720.
    Scale,
}

/// The mathematical image of a [`FilterStep`].
#[verifier::ext_equal]
pub enum FilterView {
    Volume { volume_milli: nat },
    Subtitles { path: Seq<char> },
    Scale,
}

impl View for FilterStep {
    type V = FilterView;

    open spec fn view(&self) -> FilterView {
        match self {
            FilterStep::Volume { volume_milli } => FilterView::Volume {
                volume_milli: *volume_milli as nat,
            },
            FilterStep::Subtitles { path } => FilterView::Subtitles { path: path@ },
            FilterStep::Scale => FilterView::Scale,
        }
    }
}

/// The serialized form of one filter.
pub open spec fn spec_filter_text(f: FilterView) -> Seq<char> {
    match f {
        FilterView::Volume { volume_milli } => "volume="@ + spec_millis_display(volume_milli),
        FilterView::Subtitles { path } => "subtitles='"@ + path + "'"@,
        FilterView::Scale => "scale=1280:720"@,
    }
}

/// The serialized chain: the filters in order, joined with commas.
pub open spec fn spec_chain_text(fs: Seq<FilterView>) -> Seq<char>
    decreases fs.len(),
{
    if fs.len() == 0 {
        Seq::empty()
    } else if fs.len() == 1 {
        spec_filter_text(fs[0])
    } else {
        spec_chain_text(fs.drop_last()) + ","@ + spec_filter_text(fs.last())
    }
}

/// The view of a filter list.
pub open spec fn filters_view(fs: Seq<FilterStep>) -> Seq<FilterView> {
    fs.map_values(|f: FilterStep| f@)
}

/// A volume factor differing from unity by more than one hundredth gets a
/// volume filter; closer factors are left alone.
pub open spec fn spec_volume_active(volume_milli: nat) -> bool {
    volume_milli > 1010 || volume_milli < 990
}

/// The filter chain for one rendered segment: a volume filter when the factor
/// is active, then a caption overlay when a caption file exists.
pub open spec fn spec_segment_filters(volume_milli: nat, subtitle_path: Option<Seq<char>>) -> Seq<
    FilterView,
> {
    let base: Seq<FilterView> = if spec_volume_active(volume_milli) {
        seq![FilterView::Volume { volume_milli }]
    } else {
        Seq::empty()
    };
    match subtitle_path {
        Some(path) => base + seq![FilterView::Subtitles { path }],
        None => base,
    }
}

/// The filter chain for a preview render: the fixed downscale first, then the
/// same volume and caption rules as a segment render.
pub open spec fn spec_preview_filters(volume_milli: nat, subtitle_path: Option<Seq<char>>) -> Seq<
    FilterView,
> {
    seq![FilterView::Scale] + spec_segment_filters(volume_milli, subtitle_path)
}

/// Builds the filter chain for one rendered segment, as
/// [`spec_segment_filters`] describes.
pub fn build_segment_filters(volume_milli: u64, subtitle_path: Option<String>) -> (fs: Vec<
    FilterStep,
>)
    ensures
        filters_view(fs@) == spec_segment_filters(
            volume_milli as nat,
            match subtitle_path {
                Some(p) => Some(p@),
                None => None,
            },
        ),
{
    let mut fs: Vec<FilterStep> = Vec::new();
    if volume_milli > 1010 || volume_milli < 990 {
        fs.push(FilterStep::Volume { volume_milli });
    }
    match subtitle_path {
        Some(path) => {
            fs.push(FilterStep::Subtitles { path });
        },
        None => {},
    }
    proof {
        assert(filters_view(fs@) =~= spec_segment_filters(
            volume_milli as nat,
            match subtitle_path {
                Some(p) => Some(p@),
                None => None,
            },
        ));
    }
    fs
}

/// Builds the filter chain for a preview render, as
/// [`spec_preview_filters`] describes.
pub fn build_preview_filters(volume_milli: u64, subtitle_path: Option<String>) -> (fs: Vec<
    FilterStep,
>)
    ensures
        filters_view(fs@) == spec_preview_filters(
            volume_milli as nat,
            match subtitle_path {
                Some(p) => Some(p@),
                None => None,
            },
        ),
{
    let mut fs: Vec<FilterStep> = Vec::new();
    fs.push(FilterStep::Scale);
    if volume_milli > 1010 || volume_milli < 990 {
        fs.push(FilterStep::Volume { volume_milli });
    }
    match subtitle_path {
        Some(path) => {
            fs.push(FilterStep::Subtitles { path });
        },
        None => {},
    }
    proof {
        assert(filters_view(fs@) =~= spec_preview_filters(
            volume_milli as nat,
            match subtitle_path {
                Some(p) => Some(p@),
                None => None,
            },
        ));
    }
    fs
}

/// Serializes a filter chain, as [`spec_chain_text`] describes.
pub fn serialize_filters(fs: &Vec<FilterStep>) -> (r: String)
    ensures
        r@ == spec_chain_text(filters_view(fs@)),
{
    let mut out = String::new();
    let mut i: usize = 0;
    while i < fs.len()
        invariant
            i <= fs@.len(),
            out@ == spec_chain_text(filters_view(fs@).take(i as int)),
        decreases fs@.len() - i,
    {
        if i > 0 {
            out.append(",");
        }
        let piece: String = match &fs[i] {
            FilterStep::Volume { volume_milli } => {
                let mut p = String::from_str("volume=");
                let shown = millis_display(*volume_milli);
                p.append(shown.as_str());
                p
            },
            FilterStep::Subtitles { path } => {
                let mut p = String::from_str("subtitles='");
                p.append(path.as_str());
                p.append("'");
                p
            },
            FilterStep::Scale => String::from_str("scale=1280:720"),
        };
        out.append(piece.as_str());
        proof {
            assert(filters_view(fs@).take(i + 1).drop_last() =~= filters_view(fs@).take(i as int));
            assert(filters_view(fs@).take(i + 1).last() == fs@[i as int]@);
            assert(piece@ == spec_filter_text(fs@[i as int]@));
            if i == 0 {
                assert(out@ =~= spec_chain_text(filters_view(fs@).take(i + 1)));
            } else {
                assert(out@ =~= spec_chain_text(filters_view(fs@).take(i + 1)));
            }
        }
        i = i + 1;
    }
    proof {
        assert(filters_view(fs@).take(fs@.len() as int) =~= filters_view(fs@));
    }
    out
}

} // verus!
