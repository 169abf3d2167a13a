use std::time::{Duration, Instant};

use kobovnc::event_handling::{direct_coordinate, event_params, pan_offsets, PointerPosition, TouchSettings, VncCommand};
use kobovnc::geom::{Dir, Point};
use kobovnc::gesture::GestureEvent;
use kobovnc::input::{ButtonCode, ButtonStatus, DeviceEvent, FingerStatus};
use kobovnc::view::Event;

fn settings() -> TouchSettings {
    TouchSettings {
        width: 1920,
        height: 1080,
        fb_width: 758,
        fb_height: 1024,
        x_padding: 0,
        y_padding: 0,
        panning: false,
        scale: false,
        long_tap: false,
        gui_enabled: false,
        disable_touch: false,
        disable_exit_via_hold: false,
    }
}

fn finger(status: FingerStatus, x: i32, y: i32) -> Option<Event> {
    Some(Event::Device(DeviceEvent::Finger { id: 0, status, position: Point::new(x, y) }))
}

fn swipe(dir: Dir) -> Option<Event> {
    Some(Event::Gesture(GestureEvent::Swipe { dir, start: Point::new(0, 0), end: Point::new(1, 1) }))
}

fn run(evt: &Option<Event>, s: &TouchSettings, x: u32, y: u32, long: bool, exit: bool) -> (event_params, Vec<VncCommand>, Instant, Instant) {
    let start = Instant::now();
    let now = start + Duration::from_secs(1);
    let (p, c) = event_params::handle_events(evt, s, x, y, start, now, true, long, exit);
    (p, c, start, now)
}

fn direct(buttons: u8, x: u16, y: u16) -> VncCommand {
    VncCommand::Pointer { buttons, position: PointerPosition::Direct { x, y } }
}

#[test]
fn direct_coordinates_take_off_the_padding_and_add_the_offset() {
    assert_eq!(direct_coordinate(100, 10, 5, 1920), 95);
    assert_eq!(direct_coordinate(100, 0, 0, 50), 50);
    // below zero wraps to a large unsigned value, then is kept at the limit
    assert_eq!(direct_coordinate(5, 10, 0, 1920), 1920);
}

#[test]
fn finger_down_presses_the_left_button_and_restarts_the_timer() {
    let (p, c, _, now) = run(&finger(FingerStatus::Down, 100, 200), &settings(), 0, 0, false, false);
    assert_eq!(c, vec![direct(1, 100, 200)]);
    assert_eq!(p.finger_down_count, now);
    assert!(!p.exit_to_nickel && !p.exit_to_gui);
    assert!(p.has_drawn_once);
}

#[test]
fn finger_motion_drags_and_up_releases() {
    let (p, c, start, _) = run(&finger(FingerStatus::Motion, 10, 20), &settings(), 3, 4, false, false);
    assert_eq!(c, vec![direct(1, 13, 24)]);
    assert_eq!(p.finger_down_count, start);
    let (_, c, _, _) = run(&finger(FingerStatus::Up, 10, 20), &settings(), 3, 4, false, false);
    assert_eq!(c, vec![direct(0, 13, 24)]);
}

#[test]
fn scaled_positions_are_left_to_the_scale_factor() {
    let mut s = settings();
    s.scale = true;
    let (_, c, _, _) = run(&finger(FingerStatus::Down, 10, 20), &s, 3, 4, false, false);
    assert_eq!(c, vec![VncCommand::Pointer { buttons: 1, position: PointerPosition::Scaled { x: 10, y: 20 } }]);
}

#[test]
fn long_tap_sends_a_right_click_only_after_the_delay() {
    let mut s = settings();
    s.long_tap = true;
    let (_, c, _, _) = run(&finger(FingerStatus::Up, 10, 20), &s, 0, 0, false, false);
    assert!(c.is_empty());
    let (_, c, _, _) = run(&finger(FingerStatus::Up, 10, 20), &s, 0, 0, true, false);
    assert_eq!(c, vec![direct(4, 10, 20), direct(0, 10, 20)]);
}

#[test]
fn panning_fingers_click_on_release_only() {
    let mut s = settings();
    s.panning = true;
    let (_, c, _, _) = run(&finger(FingerStatus::Down, 10, 20), &s, 0, 0, false, false);
    assert!(c.is_empty());
    let (_, c, _, _) = run(&finger(FingerStatus::Up, 10, 20), &s, 0, 0, false, false);
    assert_eq!(c, vec![direct(1, 10, 20), direct(0, 10, 20)]);
}

#[test]
fn disabled_touch_sends_nothing() {
    let mut s = settings();
    s.disable_touch = true;
    for status in [FingerStatus::Down, FingerStatus::Motion, FingerStatus::Up] {
        let (_, c, _, _) = run(&finger(status, 10, 20), &s, 0, 0, true, false);
        assert!(c.is_empty());
    }
}

#[test]
fn unknown_fingers_are_ignored() {
    let evt = Some(Event::Device(DeviceEvent::Finger { id: 3, status: FingerStatus::Down, position: Point::new(1, 1) }));
    let (p, c, start, _) = run(&evt, &settings(), 0, 0, false, false);
    assert!(c.is_empty());
    assert_eq!(p.finger_down_count, start);
}

#[test]
fn holding_past_the_exit_delay_ends_the_session() {
    let (p, _, _, _) = run(&finger(FingerStatus::Up, 1, 1), &settings(), 0, 0, false, true);
    assert!(p.exit_to_nickel && !p.exit_to_gui);
    let mut s = settings();
    s.gui_enabled = true;
    let (p, _, _, _) = run(&finger(FingerStatus::Up, 1, 1), &s, 0, 0, false, true);
    assert!(!p.exit_to_nickel && p.exit_to_gui);
    s.disable_exit_via_hold = true;
    let (p, _, _, _) = run(&finger(FingerStatus::Up, 1, 1), &s, 0, 0, false, true);
    assert!(!p.exit_to_nickel && !p.exit_to_gui);
}

#[test]
fn power_button_and_cover_end_the_session() {
    let power = Some(Event::Device(DeviceEvent::Button { code: ButtonCode::Power, status: ButtonStatus::Pressed }));
    let (p, _, _, _) = run(&power, &settings(), 0, 0, false, false);
    assert!(p.exit_to_nickel);
    let cover = Some(Event::Device(DeviceEvent::CoverOn));
    let (p, _, _, _) = run(&cover, &settings(), 0, 0, false, false);
    assert!(p.exit_to_nickel);
    let light = Some(Event::Device(DeviceEvent::Button { code: ButtonCode::Light, status: ButtonStatus::Pressed }));
    let (p, _, _, _) = run(&light, &settings(), 0, 0, false, false);
    assert!(!p.exit_to_nickel);
}

#[test]
fn no_event_changes_nothing() {
    let (p, c, start, _) = run(&None, &settings(), 7, 8, false, false);
    assert!(c.is_empty());
    assert_eq!((p.x_offset, p.y_offset), (7, 8));
    assert_eq!(p.finger_down_count, start);
    assert!(p.has_drawn_once);
}

#[test]
fn swipes_pan_half_a_screen_within_the_remote_screen() {
    let s = settings();
    // 1920 wide remote screen on a 758 wide device: west moves right by 379
    assert_eq!(pan_offsets(Dir::West, 0, 0, &s), (379, 0, true));
    // near the right end: to the last full screen, 1920 - 758
    assert_eq!(pan_offsets(Dir::West, 1000, 0, &s), (1162, 0, true));
    assert_eq!(pan_offsets(Dir::East, 1162, 0, &s), (783, 0, true));
    assert_eq!(pan_offsets(Dir::East, 500, 0, &s), (0, 0, true));
    // 1080 high on 1024: north goes to the end at once
    assert_eq!(pan_offsets(Dir::North, 0, 0, &s), (0, 56, true));
    assert_eq!(pan_offsets(Dir::South, 0, 56, &s), (0, 0, true));
}

#[test]
fn swipes_do_not_move_along_an_axis_that_fits() {
    let mut s = settings();
    s.width = 700;
    assert_eq!(pan_offsets(Dir::West, 0, 0, &s), (0, 0, false));
    assert_eq!(pan_offsets(Dir::East, 0, 0, &s), (0, 0, false));
}

#[test]
fn a_panning_swipe_asks_for_the_new_view() {
    let mut s = settings();
    s.panning = true;
    let (p, c, _, _) = run(&swipe(Dir::West), &s, 0, 0, false, false);
    assert_eq!((p.x_offset, p.y_offset), (379, 0));
    assert!(!p.has_drawn_once);
    assert_eq!(c, vec![VncCommand::RequestUpdate { left: 379, top: 0, width: 758, height: 1024 }]);
    // without panning a swipe does nothing
    let (p, c, _, _) = run(&swipe(Dir::West), &settings(), 0, 0, false, false);
    assert_eq!((p.x_offset, c.len()), (0, 0));
}
