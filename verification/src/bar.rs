//! The bar encoder: one indicator as a sequence of pixels.
//!
//! A bar is drawn from the bottom up. A plain bar holds a run of the fill
//! colour and then background; a composite bar holds several coloured
//! segments laid over background, one after another.

use crate::color::{Color, Tone};
use crate::fraction::{lemma_empty_fills_none, lemma_full_fills_all, Fraction};
use vstd::prelude::*;

verus! {

/// The pixels of a plain bar: the first `filled` hold the fill colour, the
/// rest of the `length` pixels hold background.
pub open spec fn bar_pixels(filled: nat, length: nat, fill: Color) -> Seq<Color> {
    Seq::new(
        length,
        |i: int|
            if i < filled {
                fill
            } else {
                Tone::Background.color()
            },
    )
}

/// Encodes one indicator as a bar of `length` pixels, of which
/// `floor(length * fraction)` hold the fill colour.
pub fn encode_bar(fraction: Fraction, fill: Color, length: usize) -> (bar: Vec<Color>)
    requires
        fraction.wf(),
    ensures
        bar@ == bar_pixels(fraction.filled(length as nat), length as nat, fill),
{
    let filled = fraction.pixels(length);
    let background = Tone::Background.to_color();
    let mut bar: Vec<Color> = Vec::new();
    let mut i: usize = 0;
    while i < length
        invariant
            i <= length,
            filled == fraction.filled(length as nat),
            background == Tone::Background.color(),
            bar@ == bar_pixels(filled as nat, length as nat, fill).take(i as int),
        decreases length - i,
    {
        bar.push(
            if i < filled {
                fill
            } else {
                background
            },
        );
        i += 1;
    }
    bar
}

/// The two ends of the range: a full fraction fills every pixel of the bar
/// with the fill colour, and an empty one leaves every pixel at background.
pub proof fn lemma_bar_extremes(fraction: Fraction, fill: Color, length: nat, i: int)
    requires
        fraction.wf(),
        0 <= i < length,
    ensures
        fraction.num == fraction.den ==> bar_pixels(fraction.filled(length), length, fill)[i]
            == fill,
        fraction.num == 0 ==> bar_pixels(fraction.filled(length), length, fill)[i]
            == Tone::Background.color(),
{
    if fraction.num == fraction.den {
        lemma_full_fills_all(fraction, length);
    }
    if fraction.num == 0 {
        lemma_empty_fills_none(fraction, length);
    }
}

/// One override of a composite bar: the pixels from `start` up to, but not
/// including, `end` take `color`.
#[derive(Clone, Copy, PartialEq, Eq, Structural, Debug)]
pub struct Segment {
    pub start: usize,
    pub end: usize,
    pub color: Color,
}

impl Segment {
    /// Whether the segment lies over pixel `i`.
    pub open spec fn covers(self, i: int) -> bool {
        self.start <= i < self.end
    }
}

/// Pixel `i` of a composite bar: the colour of the last segment that lies
/// over it, or background where none does.
pub open spec fn composite_pixel(segments: Seq<Segment>, i: int) -> Color
    decreases segments.len(),
{
    if segments.len() == 0 {
        Tone::Background.color()
    } else if segments.last().covers(i) {
        segments.last().color
    } else {
        composite_pixel(segments.drop_last(), i)
    }
}

/// The pixels of a composite bar of `length` pixels.
pub open spec fn composite_pixels(segments: Seq<Segment>, length: nat) -> Seq<Color> {
    Seq::new(length, |i: int| composite_pixel(segments, i))
}

/// Adding one more segment changes the pixels under it and no others.
pub proof fn lemma_composite_push(segments: Seq<Segment>, segment: Segment, i: int)
    ensures
        composite_pixel(segments.push(segment), i) == if segment.covers(i) {
            segment.color
        } else {
            composite_pixel(segments, i)
        },
{
    assert(segments.push(segment).drop_last() =~= segments);
}

/// Where segments overlap, the later one wins: a pixel has the colour of a
/// segment over it if no segment after that one lies over it too.
pub proof fn lemma_later_override_wins(segments: Seq<Segment>, k: int, i: int)
    requires
        0 <= k < segments.len(),
        segments[k].covers(i),
        forall|j: int| k < j < segments.len() ==> !(#[trigger] segments[j]).covers(i),
    ensures
        composite_pixel(segments, i) == segments[k].color,
    decreases segments.len(),
{
    if k < segments.len() - 1 {
        lemma_later_override_wins(segments.drop_last(), k, i);
    }
}

/// A pixel that no segment lies over stays at background.
pub proof fn lemma_uncovered_is_background(segments: Seq<Segment>, i: int)
    requires
        forall|j: int| 0 <= j < segments.len() ==> !(#[trigger] segments[j]).covers(i),
    ensures
        composite_pixel(segments, i) == Tone::Background.color(),
    decreases segments.len(),
{
    if segments.len() > 0 {
        lemma_uncovered_is_background(segments.drop_last(), i);
    }
}

/// Encodes a composite bar of `length` pixels: background, with the segments
/// laid over it in the order given. Parts of a segment beyond the bar's end
/// are left out.
pub fn encode_composite(segments: &Vec<Segment>, length: usize) -> (bar: Vec<Color>)
    ensures
        bar@ == composite_pixels(segments@, length as nat),
{
    let background = Tone::Background.to_color();
    let mut bar: Vec<Color> = Vec::new();
    let mut i: usize = 0;
    while i < length
        invariant
            i <= length,
            background == Tone::Background.color(),
            bar@ == composite_pixels(Seq::<Segment>::empty(), length as nat).take(i as int),
        decreases length - i,
    {
        bar.push(background);
        i += 1;
    }
    let mut k: usize = 0;
    while k < segments.len()
        invariant
            k <= segments.len(),
            bar@ == composite_pixels(segments@.take(k as int), length as nat),
        decreases segments.len() - k,
    {
        let segment = segments[k];
        let stop = if segment.end < length {
            segment.end
        } else {
            length
        };
        let ghost before = segments@.take(k as int);
        let mut j: usize = segment.start;
        while j < stop
            invariant
                stop <= length,
                stop <= segment.end,
                segment.start <= j,
                j <= stop || j == segment.start,
                stop == length || stop == segment.end,
                bar@.len() == length,
                forall|p: int|
                    0 <= p < length ==> #[trigger] bar@[p] == if segment.start <= p < j {
                        segment.color
                    } else {
                        composite_pixel(before, p)
                    },
            decreases stop - j,
        {
            bar.set(j, segment.color);
            j += 1;
        }
        proof {
            assert(segments@.take(k + 1) =~= before.push(segment));
            assert forall|p: int| 0 <= p < length implies #[trigger] bar@[p] == composite_pixel(
                before.push(segment),
                p,
            ) by {
                lemma_composite_push(before, segment, p);
            }
            assert(bar@ =~= composite_pixels(segments@.take(k + 1), length as nat));
        }
        k += 1;
    }
    assert(segments@.take(segments.len() as int) =~= segments@);
    bar
}

} // verus!
