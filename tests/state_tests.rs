use screen_frame::channel::{DeliveryChannel, Received};
use screen_frame::compositor::{Compositor, PresentationHealth, TickAction, PRIVACY_FILL};
use screen_frame::frame::{CropRegion, CroppedFrame, FrameFormat, PixelLayout, RawFrame};
use screen_frame::link::latest_link;
use screen_frame::mode::{attributes_of, Mode, ModeController, Stacking, WindowAttributes, DEBOUNCE_MS};
use screen_frame::pipeline::{region_fits, CaptureResult, CaptureState, ProducerAction};
use screen_frame::render::RenderState;
use screen_frame::tracker::{RegionTracker, WindowGeometry};

fn transitions(first: u64, second: u64) -> usize {
    let mut c = ModeController::new();
    let mut n = 0;
    if c.on_trigger(first).is_some() {
        n += 1;
    }
    if c.on_trigger(second).is_some() {
        n += 1;
    }
    n
}

#[test]
fn triggers_inside_debounce_switch_once() {
    assert_eq!(transitions(1000, 1100), 1);
    assert_eq!(transitions(0, DEBOUNCE_MS - 1), 1);
    assert_eq!(transitions(5, 5), 1);
}

#[test]
fn triggers_outside_debounce_switch_twice() {
    assert_eq!(transitions(1000, 1400), 2);
    assert_eq!(transitions(0, DEBOUNCE_MS), 2);
}

#[test]
fn ignored_trigger_does_not_reset_timer() {
    let mut c = ModeController::new();
    assert!(c.on_trigger(0).is_some());
    assert!(c.on_trigger(200).is_none());
    assert!(c.on_trigger(300).is_some());
    assert_eq!(c.mode, Mode::Alignment);
    assert_eq!(c.last_switch_ms, Some(300));
}

#[test]
fn mode_attributes() {
    let mut c = ModeController::new();
    assert_eq!(c.mode, Mode::Alignment);
    let share = c.on_trigger(10).unwrap();
    assert_eq!(share, WindowAttributes { decorations: false, stacking: Stacking::BottomMost, content_protected: true });
    assert_eq!(c.mode, Mode::Share);
    let align = c.on_trigger(10 + DEBOUNCE_MS).unwrap();
    assert_eq!(align, attributes_of(Mode::Alignment));
    assert_eq!(align, WindowAttributes { decorations: true, stacking: Stacking::TopMost, content_protected: false });
}

#[test]
fn trigger_near_clock_limit_is_ignored() {
    let mut c = ModeController::new();
    assert!(c.on_trigger(u64::MAX - 10).is_some());
    assert!(c.on_trigger(u64::MAX).is_none());
}

fn frame(width: u32, height: u32, byte: u8) -> CroppedFrame {
    CroppedFrame { width, height, pixels: vec![byte; (width * height * 4) as usize] }
}

#[test]
fn focused_presents_uniform_fill() {
    let mut c = Compositor::new(3, 2);
    let action = c.tick(Received::Value(frame(3, 2, 7)), true);
    assert_eq!(action, TickAction::Present(vec![PRIVACY_FILL; 24]));
    let action = c.tick(Received::Value(frame(1, 1, 200)), true);
    assert_eq!(action, TickAction::Present(vec![128u8; 24]));
}

#[test]
fn unfocused_presents_latest_frame() {
    let mut c = Compositor::new(2, 2);
    let f = CroppedFrame { width: 2, height: 2, pixels: (0..16u8).collect() };
    assert_eq!(c.tick(Received::Value(f), false), TickAction::Present((0..16u8).collect()));
    assert_eq!(c.tick(Received::Empty, false), TickAction::Present((0..16u8).collect()));
    assert_eq!(c.tick(Received::Value(frame(2, 2, 9)), false), TickAction::Present(vec![9u8; 16]));
}

#[test]
fn nothing_received_presents_empty_placeholder() {
    let mut c = Compositor::new(2, 2);
    assert_eq!(c.tick(Received::Empty, false), TickAction::Present(Vec::new()));
}

#[test]
fn disconnected_shuts_down() {
    let mut c = Compositor::new(2, 2);
    assert_eq!(c.tick(Received::Disconnected, false), TickAction::Shutdown);
    assert_eq!(c.tick(Received::Disconnected, true), TickAction::Shutdown);
}

#[test]
fn resize_changes_fill_size() {
    let mut c = Compositor::new(2, 2);
    c.resize(1, 3);
    assert_eq!(c.tick(Received::Empty, true), TickAction::Present(vec![128u8; 12]));
}

fn monitor(width: u32, height: u32) -> RawFrame {
    let stride = width as u64 * 4;
    let data: Vec<u8> = (0..(stride as usize * height as usize)).map(|i| (i % 253) as u8).collect();
    RawFrame { data, format: FrameFormat { width, height, stride, layout: PixelLayout::Bgra } }
}

#[test]
fn resize_sequence_uses_last_size() {
    let geometry = WindowGeometry { x: 0, y: 0, width: 64, height: 64, focused: false };
    let mut tracker = RegionTracker::new(geometry);
    let mut sizes = DeliveryChannel::new();
    let positions: DeliveryChannel<(i32, i32)> = DeliveryChannel::new();
    let mut capture = CaptureState::new(tracker.region());
    let mut positions = positions;
    let raw = monitor(300, 200);
    for (w, h) in [(100u32, 100u32), (50, 80), (200, 150)] {
        sizes.send(tracker.on_resize(w, h));
        // frames keep arriving between updates without a receive on the size channel
        let _ = capture.produce(&raw);
    }
    let action = capture.step(sizes.try_recv(), positions.try_recv(), CaptureResult::Frame(raw.clone()));
    match action {
        ProducerAction::Deliver(f) => {
            assert_eq!((f.width, f.height), (200, 150));
            assert_eq!(f.pixels.len(), 200 * 150 * 4);
        }
        other => panic!("unexpected {:?}", other),
    }
    for _ in 0..3 {
        match capture.step(sizes.try_recv(), positions.try_recv(), CaptureResult::Frame(raw.clone())) {
            ProducerAction::Deliver(f) => assert_eq!((f.width, f.height), (200, 150)),
            other => panic!("unexpected {:?}", other),
        }
    }
}

#[test]
fn resize_sequence_over_link() {
    let (tx, rx) = latest_link();
    let (_ptx, prx) = latest_link::<(i32, i32)>();
    let mut capture = CaptureState::new(CropRegion { x: 1, y: 1, width: 64, height: 64 });
    for size in [(100u32, 100u32), (50, 80), (200, 150)] {
        tx.send_latest(size);
    }
    let action = capture.step(rx.try_recv(), prx.try_recv(), CaptureResult::Frame(monitor(10, 10)));
    assert_eq!(capture.region, CropRegion { x: 1, y: 1, width: 200, height: 150 });
    assert!(matches!(action, ProducerAction::Deliver(ref f) if f.width == 200 && f.height == 150));
}

#[test]
fn step_applies_position_and_crops() {
    let mut capture = CaptureState::new(CropRegion { x: 0, y: 0, width: 1, height: 1 });
    let raw = RawFrame {
        data: vec![1, 2, 3, 4, 5, 6, 7, 8],
        format: FrameFormat { width: 2, height: 1, stride: 8, layout: PixelLayout::Bgra },
    };
    match capture.step(Received::Empty, Received::Value((1, 0)), CaptureResult::Frame(raw)) {
        ProducerAction::Deliver(f) => assert_eq!(f.pixels, vec![7, 6, 5, 8]),
        other => panic!("unexpected {:?}", other),
    }
    assert_eq!(capture.region.x, 1);
}

#[test]
fn step_pending_and_fatal() {
    let mut capture = CaptureState::new(CropRegion { x: 0, y: 0, width: 4, height: 4 });
    assert!(matches!(capture.step(Received::Empty, Received::Empty, CaptureResult::Pending), ProducerAction::Retry));
    assert!(matches!(
        capture.step(Received::Value((8, 8)), Received::Value((-3, -4)), CaptureResult::Fatal),
        ProducerAction::Stop
    ));
    assert_eq!(capture.region, CropRegion { x: -3, y: -4, width: 8, height: 8 });
}

#[test]
fn region_fit_limits() {
    assert!(region_fits(CropRegion { x: 0, y: 0, width: 1920, height: 1080 }));
    assert!(region_fits(CropRegion { x: 0, y: 0, width: 0, height: u32::MAX }));
}

#[test]
fn tracker_events() {
    let mut t = RegionTracker::new(WindowGeometry { x: 0, y: 0, width: 800, height: 600, focused: false });
    assert_eq!(t.on_move(-20, -5), (-20, -5));
    assert_eq!(t.on_resize(320, 240), (320, 240));
    t.on_focus(true);
    assert_eq!(t.geometry, WindowGeometry { x: -20, y: -5, width: 320, height: 240, focused: true });
    assert_eq!(t.region(), CropRegion { x: -20, y: -5, width: 320, height: 240 });
}

#[test]
fn render_state_follows_focus_and_mode() {
    let mut s = RenderState::new(WindowGeometry { x: 0, y: 0, width: 2, height: 1, focused: false }).unwrap();
    let f = CroppedFrame { width: 2, height: 1, pixels: vec![1, 2, 3, 4, 5, 6, 7, 8] };
    assert_eq!(s.tick(Received::Value(f)), TickAction::Present(vec![1, 2, 3, 4, 5, 6, 7, 8]));
    s.on_focus(true);
    assert_eq!(s.tick(Received::Empty), TickAction::Present(vec![128u8; 8]));
    assert_eq!(s.on_resize(1, 1), Some((1, 1)));
    assert_eq!(s.tick(Received::Empty), TickAction::Present(vec![128u8; 4]));
    s.on_focus(false);
    assert_eq!(s.tick(Received::Empty), TickAction::Present(vec![1, 2, 3, 4, 5, 6, 7, 8]));
    assert_eq!(s.on_move(-1, 3), (-1, 3));
    assert!(s.on_trigger(100).is_some());
    assert!(s.on_trigger(150).is_none());
    assert_eq!(s.mode.mode, Mode::Share);
    assert_eq!(s.tick(Received::Disconnected), TickAction::Shutdown);
}

#[test]
fn single_presentation_failure_is_survived() {
    let mut h = PresentationHealth::new(3);
    assert!(h.record(false));
    assert!(h.record(true));
    assert!(h.record(false));
    assert!(h.record(false));
    assert_eq!(h.consecutive_failures, 2);
    assert!(!h.record(false));
    assert_eq!(h.consecutive_failures, 3);
}
