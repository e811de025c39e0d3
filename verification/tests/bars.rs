use sema::bar::{encode_bar, encode_composite, Segment};
use sema::color::{
    rgba, Color, Tone, COLOR_BG, COLOR_MUTE, COLOR_NORMAL, COLOR_OK, COLOR_URGENT, COLOR_WARN,
};
use sema::fraction::Fraction;

const BACKGROUND: Color = Color { r: 22, g: 22, b: 22, a: 255 };
const RED: Color = Color { r: 255, g: 0, b: 0, a: 255 };
const BLUE: Color = Color { r: 0, g: 0, b: 255, a: 255 };
const GREEN: Color = Color { r: 0, g: 255, b: 0, a: 255 };

fn count(bar: &[Color], color: Color) -> usize {
    bar.iter().filter(|pixel| **pixel == color).count()
}

#[test]
fn rgba_splits_a_packed_word() {
    assert_eq!(rgba(0x0a8c6cff), Color { r: 10, g: 140, b: 108, a: 255 });
    assert_eq!(rgba(0x01020304), Color { r: 1, g: 2, b: 3, a: 4 });
    assert_eq!(rgba(0), Color { r: 0, g: 0, b: 0, a: 0 });
    assert_eq!(rgba(0xffffffff), Color { r: 255, g: 255, b: 255, a: 255 });
}

#[test]
fn palette_holds_the_six_colours() {
    assert_eq!(Tone::Urgent.to_color(), Color { r: 0xcf, g: 0x49, b: 0x55, a: 0xff });
    assert_eq!(Tone::Warning.to_color(), Color { r: 0xfb, g: 0xc0, b: 0x11, a: 0xff });
    assert_eq!(Tone::Okay.to_color(), Color { r: 10, g: 140, b: 108, a: 255 });
    assert_eq!(Tone::Background.to_color(), BACKGROUND);
    assert_eq!(Tone::Muted.to_color(), Color { r: 0x77, g: 0x77, b: 0x77, a: 0xff });
    assert_eq!(Tone::Normal.to_color(), Color { r: 0x25, g: 0x6c, b: 0xcf, a: 0xff });
    assert_eq!(rgba(COLOR_URGENT), Tone::Urgent.to_color());
    assert_eq!(rgba(COLOR_WARN), Tone::Warning.to_color());
    assert_eq!(rgba(COLOR_OK), Tone::Okay.to_color());
    assert_eq!(rgba(COLOR_BG), Tone::Background.to_color());
    assert_eq!(rgba(COLOR_MUTE), Tone::Muted.to_color());
    assert_eq!(rgba(COLOR_NORMAL), Tone::Normal.to_color());
}

#[test]
fn half_battery_fills_the_lower_sixteen_of_thirty_two() {
    let fill = Color { r: 10, g: 140, b: 108, a: 255 };
    let bar = encode_bar(Fraction::clamped(1, 2), fill, 32);
    assert_eq!(bar.len(), 32);
    for i in 0..16 {
        assert_eq!(bar[i], fill);
    }
    for i in 16..32 {
        assert_eq!(bar[i], Color { r: 22, g: 22, b: 22, a: 255 });
    }
}

#[test]
fn full_fraction_fills_every_pixel() {
    for length in [0usize, 1, 7, 16, 32, 1000] {
        let bar = encode_bar(Fraction::one(), RED, length);
        assert_eq!(bar.len(), length);
        assert_eq!(count(&bar, RED), length);
        let bar = encode_bar(Fraction::clamped(10, 10), RED, length);
        assert_eq!(count(&bar, RED), length);
    }
}

#[test]
fn empty_fraction_fills_no_pixel() {
    for length in [0usize, 1, 7, 16, 32, 1000] {
        let bar = encode_bar(Fraction::zero(), RED, length);
        assert_eq!(bar.len(), length);
        assert_eq!(count(&bar, BACKGROUND), length);
    }
}

#[test]
fn filled_count_is_a_floor() {
    assert_eq!(Fraction::clamped(2, 10).pixels(16), 3);
    assert_eq!(Fraction::clamped(99, 100).pixels(10), 9);
    assert_eq!(Fraction::clamped(1, 3).pixels(10), 3);
    assert_eq!(Fraction::clamped(2, 3).pixels(10), 6);
    assert_eq!(Fraction::clamped(1, 100).pixels(99), 0);
    assert_eq!(Fraction::clamped(73, 100).pixels(16), 11);
    let bar = encode_bar(Fraction::clamped(73, 100), BLUE, 16);
    assert_eq!(count(&bar, BLUE), 11);
    assert_eq!(count(&bar, BACKGROUND), 5);
    for i in 0..16 {
        assert_eq!(bar[i], if i < 11 { BLUE } else { BACKGROUND });
    }
}

#[test]
fn filled_count_holds_for_the_largest_values() {
    let f = Fraction::clamped(i64::MAX, u64::MAX);
    assert_eq!(f.pixels(0), 0);
    assert_eq!(f.pixels(2), 0);
    assert_eq!(f.pixels(4), 1);
    assert_eq!(Fraction::one().pixels(usize::MAX), usize::MAX);
    assert_eq!(Fraction::clamped(1, 2).pixels(usize::MAX), usize::MAX / 2);
}

#[test]
fn fractions_out_of_range_are_clamped() {
    assert_eq!(Fraction::clamped(-2, 10), Fraction { num: 0, den: 10 });
    assert_eq!(Fraction::clamped(15, 10), Fraction { num: 10, den: 10 });
    assert_eq!(Fraction::clamped(3, 10), Fraction { num: 3, den: 10 });
    assert_eq!(Fraction::clamped(i64::MIN, 1), Fraction { num: 0, den: 1 });
    assert_eq!(Fraction::clamped(0, 7), Fraction { num: 0, den: 7 });
    assert_eq!(Fraction::clamped(7, 7), Fraction { num: 7, den: 7 });
    let below = encode_bar(Fraction::clamped(-2, 10), RED, 32);
    assert_eq!(below, encode_bar(Fraction::zero(), RED, 32));
    let above = encode_bar(Fraction::clamped(15, 10), RED, 32);
    assert_eq!(above, encode_bar(Fraction::one(), RED, 32));
}

#[test]
fn fraction_is_compared_with_a_ratio() {
    assert!(Fraction::clamped(1, 10).at_most(1, 10));
    assert!(Fraction::clamped(5, 100).at_most(1, 10));
    assert!(!Fraction::clamped(11, 100).at_most(1, 10));
    assert!(Fraction::zero().at_most(0, 1));
    assert!(!Fraction::one().at_most(9, 10));
    assert!(Fraction::clamped(i64::MAX, u64::MAX).at_most(u64::MAX, u64::MAX));
}

#[test]
fn composite_without_segments_is_background() {
    let bar = encode_composite(&vec![], 8);
    assert_eq!(bar, vec![BACKGROUND; 8]);
    assert_eq!(encode_composite(&vec![], 0), vec![]);
}

#[test]
fn composite_segments_that_do_not_overlap_leave_the_rest_at_background() {
    let segments = vec![
        Segment { start: 6, end: 8, color: RED },
        Segment { start: 0, end: 3, color: BLUE },
    ];
    let bar = encode_composite(&segments, 10);
    assert_eq!(
        bar,
        vec![BLUE, BLUE, BLUE, BACKGROUND, BACKGROUND, BACKGROUND, RED, RED, BACKGROUND, BACKGROUND]
    );
}

#[test]
fn composite_later_override_wins_where_segments_overlap() {
    let segments = vec![
        Segment { start: 0, end: 6, color: RED },
        Segment { start: 4, end: 8, color: BLUE },
        Segment { start: 5, end: 6, color: GREEN },
    ];
    let bar = encode_composite(&segments, 10);
    assert_eq!(
        bar,
        vec![RED, RED, RED, RED, BLUE, GREEN, BLUE, BLUE, BACKGROUND, BACKGROUND]
    );
    let reversed = vec![segments[2], segments[1], segments[0]];
    let bar = encode_composite(&reversed, 10);
    assert_eq!(
        bar,
        vec![RED, RED, RED, RED, RED, RED, BLUE, BLUE, BACKGROUND, BACKGROUND]
    );
}

#[test]
fn composite_is_the_same_each_time() {
    let segments = vec![
        Segment { start: 2, end: 9, color: RED },
        Segment { start: 0, end: 4, color: BLUE },
    ];
    assert_eq!(encode_composite(&segments, 12), encode_composite(&segments, 12));
}

#[test]
fn composite_leaves_out_what_lies_beyond_the_bar() {
    let segments = vec![
        Segment { start: 3, end: 100, color: RED },
        Segment { start: 50, end: 60, color: BLUE },
        Segment { start: 2, end: 1, color: GREEN },
        Segment { start: usize::MAX, end: usize::MAX, color: GREEN },
    ];
    let bar = encode_composite(&segments, 5);
    assert_eq!(bar, vec![BACKGROUND, BACKGROUND, BACKGROUND, RED, RED]);
}
