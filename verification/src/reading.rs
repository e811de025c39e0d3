//! Readings: what a sampling pass brought for each indicator, failures
//! included, and how a failure is shown.
//!
//! An indicator without a reading does not stop the refresh. It is shown by a
//! fallback: an empty bar for the battery and the volume, the muted colour
//! for a segment of the composite bar.

use crate::bar::{composite_pixels, Segment};
use crate::color::{Color, Tone};
use crate::fraction::{floor_of, lemma_floor_bounds, Fraction};
use crate::layout::{lemma_slot_of_column, Layout, Slot};
use crate::matrix::{cell, grid, is_grid, Matrix, Sample, Samples};
use crate::status::SampleError;
use vstd::prelude::*;

verus! {

/// The tenth of the composite bar at which the segment of the network starts.
pub const WIFI_FROM: u64 = 0;

/// The tenths of the composite bar that the segment of the network takes.
pub const WIFI_SPAN: u64 = 5;

/// The tenth of the composite bar at which the segment of bluetooth starts.
pub const BLUETOOTH_FROM: u64 = 6;

/// The tenths of the composite bar that the segment of bluetooth takes.
pub const BLUETOOTH_SPAN: u64 = 2;

/// The tenth of the composite bar at which the segment of the microphone
/// starts.
pub const MIC_FROM: u64 = 8;

/// The tenths of the composite bar that the segment of the microphone takes.
pub const MIC_SPAN: u64 = 2;

/// One reading for each indicator.
#[derive(Clone, Copy, PartialEq, Eq, Debug)]
pub struct Readings {
    pub battery: Result<Sample, SampleError>,
    pub volume: Result<Sample, SampleError>,
    pub wifi: Result<Color, SampleError>,
    pub bluetooth: Result<Color, SampleError>,
    pub mic: Result<Color, SampleError>,
}

/// The sample that stands in for a failed reading: an empty bar.
pub open spec fn fallback_sample() -> Sample {
    Sample { fraction: Fraction { num: 0, den: 1 }, color: Tone::Muted.color() }
}

/// The colour that stands in for a failed reading.
pub open spec fn fallback_color() -> Color {
    Tone::Muted.color()
}

/// The sample of a reading, or the fallback where it failed.
pub open spec fn sample_or_fallback(reading: Result<Sample, SampleError>) -> Sample {
    match reading {
        Ok(sample) => sample,
        Err(_) => fallback_sample(),
    }
}

/// The colour of a reading, or the fallback where it failed.
pub open spec fn color_or_fallback(reading: Result<Color, SampleError>) -> Color {
    match reading {
        Ok(color) => color,
        Err(_) => fallback_color(),
    }
}

/// The segment of a bar of `length` pixels that starts `from` tenths up the
/// bar and is `span` tenths long, each rounded down to whole pixels.
pub open spec fn span_segment(length: nat, from: nat, span: nat, color: Color) -> Segment {
    Segment {
        start: floor_of(length, from, 10) as usize,
        end: (floor_of(length, from, 10) + floor_of(length, span, 10)) as usize,
        color,
    }
}

/// The segments of the composite bar, in the order in which they are laid
/// down: microphone, bluetooth, network.
pub open spec fn composite_segments(length: nat, wifi: Color, bluetooth: Color, mic: Color) -> Seq<
    Segment,
> {
    seq![
        span_segment(length, MIC_FROM as nat, MIC_SPAN as nat, mic),
        span_segment(length, BLUETOOTH_FROM as nat, BLUETOOTH_SPAN as nat, bluetooth),
        span_segment(length, WIFI_FROM as nat, WIFI_SPAN as nat, wifi),
    ]
}

impl Readings {
    /// Every sample that was read is valid.
    pub open spec fn wf(self) -> bool {
        &&& self.battery matches Ok(sample) ==> sample.wf()
        &&& self.volume matches Ok(sample) ==> sample.wf()
    }

    /// The bars of the three slots, each of `length` pixels, with the
    /// fallback in place of each failed reading.
    pub open spec fn bars(self, length: nat) -> Seq<Seq<Color>> {
        seq![
            sample_or_fallback(self.battery).bar(length),
            sample_or_fallback(self.volume).bar(length),
            composite_pixels(
                composite_segments(
                    length,
                    color_or_fallback(self.wifi),
                    color_or_fallback(self.bluetooth),
                    color_or_fallback(self.mic),
                ),
                length,
            ),
        ]
    }

    /// The grid that shows the readings in a layout.
    pub open spec fn shown(self, layout: Layout) -> Seq<Seq<Color>> {
        grid(layout, self.bars(layout.length() as nat))
    }

    /// The readings with those of one slot taken from `other`.
    pub open spec fn with_slot(self, slot: Slot, other: Readings) -> Readings {
        match slot {
            Slot::Battery => Readings { battery: other.battery, ..self },
            Slot::Volume => Readings { volume: other.volume, ..self },
            Slot::Composite => Readings {
                wifi: other.wifi,
                bluetooth: other.bluetooth,
                mic: other.mic,
                ..self
            },
        }
    }

    /// No reading at all: every indicator failed as not asked.
    pub fn none() -> (readings: Readings)
        ensures
            readings == (Readings {
                battery: Err(SampleError::Unavailable),
                volume: Err(SampleError::Unavailable),
                wifi: Err(SampleError::Unavailable),
                bluetooth: Err(SampleError::Unavailable),
                mic: Err(SampleError::Unavailable),
            }),
            readings.wf(),
    {
        Readings {
            battery: Err(SampleError::Unavailable),
            volume: Err(SampleError::Unavailable),
            wifi: Err(SampleError::Unavailable),
            bluetooth: Err(SampleError::Unavailable),
            mic: Err(SampleError::Unavailable),
        }
    }

    /// The samples to compose for a bar of `length` pixels: each reading, or
    /// its fallback where it failed.
    pub fn resolve(&self, length: usize) -> (samples: Samples)
        requires
            self.wf(),
        ensures
            samples.wf(),
            samples.battery == sample_or_fallback(self.battery),
            samples.volume == sample_or_fallback(self.volume),
            samples.composite@ == composite_segments(
                length as nat,
                color_or_fallback(self.wifi),
                color_or_fallback(self.bluetooth),
                color_or_fallback(self.mic),
            ),
            samples.bars(length as nat) == self.bars(length as nat),
    {
        let battery = sample_or(self.battery);
        let volume = sample_or(self.volume);
        let wifi = color_or(self.wifi);
        let bluetooth = color_or(self.bluetooth);
        let mic = color_or(self.mic);
        let mut composite: Vec<Segment> = Vec::new();
        composite.push(segment(length, MIC_FROM, MIC_SPAN, mic));
        composite.push(segment(length, BLUETOOTH_FROM, BLUETOOTH_SPAN, bluetooth));
        composite.push(segment(length, WIFI_FROM, WIFI_SPAN, wifi));
        assert(composite@ =~= composite_segments(length as nat, wifi, bluetooth, mic));
        Samples { battery, volume, composite }
    }
}

/// The sample of a reading, or the fallback where it failed.
pub fn sample_or(reading: Result<Sample, SampleError>) -> (sample: Sample)
    ensures
        sample == sample_or_fallback(reading),
{
    match reading {
        Ok(sample) => sample,
        Err(_) => Sample { fraction: Fraction::zero(), color: Tone::Muted.to_color() },
    }
}

/// The colour of a reading, or the fallback where it failed.
pub fn color_or(reading: Result<Color, SampleError>) -> (color: Color)
    ensures
        color == color_or_fallback(reading),
{
    match reading {
        Ok(color) => color,
        Err(_) => Tone::Muted.to_color(),
    }
}

/// The segment of a bar of `length` pixels that starts `from` tenths up the
/// bar and is `span` tenths long.
pub fn segment(length: usize, from: u64, span: u64, color: Color) -> (segment: Segment)
    requires
        from + span <= 10,
    ensures
        segment == span_segment(length as nat, from as nat, span as nat, color),
        segment.start <= segment.end <= length,
{
    let start = (Fraction { num: from, den: 10 }).pixels(length);
    let run = (Fraction { num: span, den: 10 }).pixels(length);
    proof {
        lemma_floor_bounds(length as nat, from as nat, 10);
        lemma_floor_bounds(length as nat, span as nat, 10);
        assert(length * from + length * span == length * (from + span)) by (nonlinear_arith);
        assert(length * (from + span) <= length * 10) by (nonlinear_arith)
            requires
                from + span <= 10,
        ;
    }
    Segment { start, end: start + run, color }
}

/// Composes the readings into the grid, with the fallback in place of each
/// failed reading. The refresh always completes: no reading can make it fail.
pub fn refresh(matrix: &mut Matrix, layout: Layout, readings: &Readings)
    requires
        layout.wf(),
        readings.wf(),
    ensures
        final(matrix).wf(),
        final(matrix).fits(layout),
        final(matrix)@ == readings.shown(layout),
{
    let samples = readings.resolve(layout.length());
    matrix.recompose(layout, &samples);
}

/// A failed reading is shown as its fallback: the grid is the one that the
/// same readings give with the fallback read in place of each failure.
pub proof fn lemma_failure_shows_fallback(readings: Readings, layout: Layout)
    ensures
        readings.shown(layout) == (Readings {
            battery: Ok(sample_or_fallback(readings.battery)),
            volume: Ok(sample_or_fallback(readings.volume)),
            wifi: Ok(color_or_fallback(readings.wifi)),
            bluetooth: Ok(color_or_fallback(readings.bluetooth)),
            mic: Ok(color_or_fallback(readings.mic)),
        }).shown(layout),
        is_grid(readings.shown(layout), layout.columns(), layout.rows()),
{
}

/// A failure stays in its own slot: whatever the readings of one slot are,
/// every pixel outside the columns of that slot is the same.
pub proof fn lemma_failure_is_local(
    readings: Readings,
    other: Readings,
    slot: Slot,
    layout: Layout,
    c: int,
    r: int,
)
    requires
        0 <= c < layout.columns(),
        0 <= r < layout.rows(),
        layout.is_blank_column(c) || c / (layout.girth() as int) != slot.index(),
    ensures
        readings.with_slot(slot, other).shown(layout)[c][r] == readings.shown(layout)[c][r],
{
    let length = layout.length() as nat;
    let changed = readings.with_slot(slot, other);
    if !layout.is_blank_column(c) {
        lemma_slot_of_column(layout, c);
        let s = c / (layout.girth() as int);
        assert(changed.bars(length)[s] == readings.bars(length)[s]);
    }
    assert(changed.shown(layout)[c][r] == cell(layout, changed.bars(length), c, r));
    assert(readings.shown(layout)[c][r] == cell(layout, readings.bars(length), c, r));
}

} // verus!
