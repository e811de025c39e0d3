use sema::color::{Color, Tone};
use sema::fraction::Fraction;
use sema::frame::{rotate, FrameBuffer, RenderError};
use sema::layout::Layout;
use sema::matrix::Sample;
use sema::reading::Readings;
use sema::scheduler::{Action, Event, Phase, Scheduler, REFRESH_RATE};
use sema::status::SampleError;

const BACKGROUND: Color = Color { r: 22, g: 22, b: 22, a: 255 };

fn readings() -> Readings {
    Readings {
        battery: Ok(Sample { fraction: Fraction::clamped(1, 2), color: Tone::Okay.to_color() }),
        volume: Err(SampleError::CommandFailed),
        wifi: Ok(Tone::Okay.to_color()),
        bluetooth: Ok(Tone::Normal.to_color()),
        mic: Ok(Tone::Urgent.to_color()),
    }
}

fn column(scheduler: &Scheduler, c: usize) -> Vec<Color> {
    let matrix = scheduler.matrix();
    (0..matrix.rows()).map(|r| matrix.pixel(c, r).unwrap()).collect()
}

#[test]
fn timer_fires_every_two_seconds() {
    assert_eq!(REFRESH_RATE, 2);
}

#[test]
fn scheduler_starts_at_rest_with_a_blank_grid() {
    let scheduler = Scheduler::new(Layout::reference());
    assert_eq!(scheduler.phase(), Phase::Idle);
    assert_eq!(scheduler.layout(), Layout::reference());
    assert_eq!(scheduler.matrix().width(), 6);
    for c in 0..6 {
        assert_eq!(column(&scheduler, c), vec![BACKGROUND; 16]);
    }
}

#[test]
fn tick_asks_for_a_sample_and_the_readings_are_presented() {
    let mut scheduler = Scheduler::new(Layout::reference());
    assert_eq!(scheduler.step(Event::Tick), Action::Sample);
    assert_eq!(scheduler.phase(), Phase::Refreshing);
    assert_eq!(column(&scheduler, 1), vec![BACKGROUND; 16]);
    assert_eq!(scheduler.step(Event::Sampled(readings())), Action::Present);
    assert_eq!(scheduler.phase(), Phase::Idle);
    let mut half = vec![Tone::Okay.to_color(); 8];
    half.extend(vec![BACKGROUND; 8]);
    assert_eq!(column(&scheduler, 0), vec![BACKGROUND; 16]);
    assert_eq!(column(&scheduler, 1), half);
    assert_eq!(column(&scheduler, 3), vec![BACKGROUND; 16]);
    assert_eq!(scheduler.matrix().width(), 6);
    assert_eq!(scheduler.matrix().rows(), 16);
}

#[test]
fn tick_during_a_refresh_is_dropped() {
    let mut scheduler = Scheduler::new(Layout::reference());
    assert_eq!(scheduler.step(Event::Tick), Action::Sample);
    assert_eq!(scheduler.step(Event::Tick), Action::Wait);
    assert_eq!(scheduler.phase(), Phase::Refreshing);
    assert_eq!(scheduler.step(Event::Sampled(readings())), Action::Present);
    assert_eq!(scheduler.step(Event::Tick), Action::Sample);
}

#[test]
fn readings_that_nobody_asked_for_are_dropped() {
    let mut scheduler = Scheduler::new(Layout::reference());
    assert_eq!(scheduler.step(Event::Sampled(readings())), Action::Wait);
    assert_eq!(scheduler.phase(), Phase::Idle);
    assert_eq!(column(&scheduler, 1), vec![BACKGROUND; 16]);
}

#[test]
fn redraw_presents_the_grid_without_sampling() {
    let mut scheduler = Scheduler::new(Layout::reference());
    assert_eq!(scheduler.step(Event::Redraw), Action::Present);
    assert_eq!(scheduler.phase(), Phase::Idle);
    scheduler.step(Event::Tick);
    scheduler.step(Event::Sampled(readings()));
    let before = rotate(scheduler.matrix());
    assert_eq!(scheduler.step(Event::Redraw), Action::Present);
    assert_eq!(scheduler.phase(), Phase::Idle);
    assert_eq!(rotate(scheduler.matrix()), before);
    scheduler.step(Event::Tick);
    assert_eq!(scheduler.step(Event::Redraw), Action::Present);
    assert_eq!(scheduler.phase(), Phase::Refreshing);
    assert_eq!(rotate(scheduler.matrix()), before);
}

#[test]
fn shutdown_stops_the_scheduler_for_good() {
    for refreshing in [false, true] {
        let mut scheduler = Scheduler::new(Layout::reference());
        if refreshing {
            scheduler.step(Event::Tick);
        }
        assert_eq!(scheduler.step(Event::Shutdown), Action::Stop);
        assert_eq!(scheduler.phase(), Phase::Stopped);
        for event in [
            Event::Tick,
            Event::Redraw,
            Event::Sampled(readings()),
            Event::PresentFailed,
            Event::Shutdown,
        ] {
            assert_eq!(scheduler.step(event), Action::Wait);
            assert_eq!(scheduler.phase(), Phase::Stopped);
        }
        assert_eq!(column(&scheduler, 1), vec![BACKGROUND; 16]);
    }
}

#[test]
fn refused_frame_stops_the_scheduler() {
    let mut scheduler = Scheduler::new(Layout::reference());
    assert_eq!(scheduler.step(Event::PresentFailed), Action::Stop);
    assert_eq!(scheduler.phase(), Phase::Stopped);
    assert_eq!(scheduler.step(Event::Tick), Action::Wait);
    let mut scheduler = Scheduler::new(Layout::reference());
    scheduler.step(Event::Tick);
    assert_eq!(scheduler.step(Event::PresentFailed), Action::Stop);
    assert_eq!(scheduler.phase(), Phase::Stopped);
}

#[test]
fn paint_copies_the_turned_grid_into_the_frame() {
    let layout = Layout::reference();
    let mut scheduler = Scheduler::new(layout);
    scheduler.step(Event::Tick);
    scheduler.step(Event::Sampled(readings()));
    let mut frame = FrameBuffer::for_layout(layout);
    assert_eq!(scheduler.paint(&mut frame), Ok(()));
    assert_eq!(frame.bytes(), &rotate(scheduler.matrix()));
    assert_eq!(frame.pixel(4, 0), Some(Tone::Okay.to_color()));
    assert_eq!(frame.pixel(4, 7), Some(Tone::Okay.to_color()));
    assert_eq!(frame.pixel(4, 8), Some(BACKGROUND));
    assert_eq!(frame.pixel(5, 0), Some(BACKGROUND));
    assert_eq!(frame.pixel(0, 0), Some(Tone::Okay.to_color()));
    assert_eq!(frame.pixel(0, 12), Some(Tone::Urgent.to_color()));
    let mut small = FrameBuffer::new(6, 16).unwrap();
    assert_eq!(scheduler.paint(&mut small), Err(RenderError::SizeMismatch));
    assert_eq!(small.bytes(), &vec![0u8; 384]);
}
