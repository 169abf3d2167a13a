use std::collections::VecDeque;

use kobovnc::color::Color;
use kobovnc::geom::{Point, Rectangle};
use kobovnc::gesture::GestureEvent;
use kobovnc::input::{DeviceEvent, FingerStatus};
use kobovnc::view::toggle_button::Toggle_Button;
use kobovnc::view::{Event, IdFeeder, RenderData, UpdateMode, ViewId};

fn button(active: bool) -> (Toggle_Button, IdFeeder) {
    let mut ids = IdFeeder::new(7);
    let b = Toggle_Button::new(
        Rectangle::from_coords(0, 0, 100, 50),
        active,
        Event::Toggle(ViewId::Scaling),
        "Enable scaling".to_string(),
        &mut ids,
    );
    (b, ids)
}

fn finger(status: FingerStatus, x: i32, y: i32) -> Event {
    Event::Device(DeviceEvent::Finger { id: 0, status, position: Point::new(x, y) })
}

#[test]
fn new_button_takes_the_next_identifier() {
    let (b, mut ids) = button(true);
    assert_eq!(b.id(), 7);
    assert_eq!(ids.next(), 8);
    assert!(b.is_active());
    assert!(!b.disabled);
    assert_eq!(b.text(), "Enable scaling");
    assert_eq!(b.rect(), Rectangle::from_coords(0, 0, 100, 50));
}

#[test]
fn disabled_sets_the_flag() {
    let (b, _) = button(false);
    let b = b.disabled(true);
    assert!(b.disabled);
    let b = b.disabled(false);
    assert!(!b.disabled);
}

#[test]
fn finger_down_on_the_button_flips_it_and_redraws() {
    let (mut b, _) = button(false);
    let mut hub = Vec::new();
    let mut bus = VecDeque::new();
    let mut rq = Vec::new();
    assert!(b.handle_event(&finger(FingerStatus::Down, 10, 10), &mut hub, &mut bus, &mut rq));
    assert!(b.is_active());
    assert_eq!(
        rq,
        vec![RenderData { id: Some(7), rect: Rectangle::from_coords(0, 0, 100, 50), mode: UpdateMode::Gui, wait: true }]
    );
    assert!(bus.is_empty());
    assert!(hub.is_empty());
}

#[test]
fn finger_down_outside_is_ignored() {
    let (mut b, _) = button(false);
    let (mut hub, mut bus, mut rq) = (Vec::new(), VecDeque::new(), Vec::new());
    assert!(!b.handle_event(&finger(FingerStatus::Down, 150, 10), &mut hub, &mut bus, &mut rq));
    assert!(!b.is_active());
    assert!(rq.is_empty());
}

#[test]
fn finger_up_while_active_redraws_and_is_consumed_only_inside() {
    let (mut b, _) = button(true);
    let (mut hub, mut bus, mut rq) = (Vec::new(), VecDeque::new(), Vec::new());
    assert!(b.handle_event(&finger(FingerStatus::Up, 10, 10), &mut hub, &mut bus, &mut rq));
    assert!(!b.handle_event(&finger(FingerStatus::Up, 200, 10), &mut hub, &mut bus, &mut rq));
    assert_eq!(rq.len(), 2);
    assert!(b.is_active());
}

#[test]
fn finger_up_while_released_does_nothing() {
    let (mut b, _) = button(false);
    let (mut hub, mut bus, mut rq) = (Vec::new(), VecDeque::new(), Vec::new());
    assert!(!b.handle_event(&finger(FingerStatus::Up, 10, 10), &mut hub, &mut bus, &mut rq));
    assert!(rq.is_empty());
}

#[test]
fn disabled_button_ignores_fingers() {
    let (b, _) = button(false);
    let mut b = b.disabled(true);
    let (mut hub, mut bus, mut rq) = (Vec::new(), VecDeque::new(), Vec::new());
    assert!(!b.handle_event(&finger(FingerStatus::Down, 10, 10), &mut hub, &mut bus, &mut rq));
    assert!(!b.is_active());
    assert!(rq.is_empty());
}

#[test]
fn tap_sends_the_event_when_enabled() {
    let (mut b, _) = button(false);
    let (mut hub, mut bus, mut rq) = (Vec::new(), VecDeque::new(), Vec::new());
    let tap = Event::Gesture(GestureEvent::Tap(Point::new(50, 25)));
    assert!(b.handle_event(&tap, &mut hub, &mut bus, &mut rq));
    assert_eq!(bus.len(), 1);
    assert!(matches!(bus[0], Event::Toggle(ViewId::Scaling)));
    let mut b = b.disabled(true);
    assert!(b.handle_event(&tap, &mut hub, &mut bus, &mut rq));
    assert_eq!(bus.len(), 1);
    let far_tap = Event::Gesture(GestureEvent::Tap(Point::new(500, 25)));
    assert!(!b.handle_event(&far_tap, &mut hub, &mut bus, &mut rq));
}

#[test]
fn render_colors_follow_the_state() {
    let (b, _) = button(false);
    assert_eq!(b.render_colors(), (Color::Gray(255), Color::Gray(0)));
    let b = b.disabled(true);
    assert_eq!(b.render_colors(), (Color::Gray(255), Color::Gray(0x88)));
    let (b, _) = button(true);
    assert_eq!(b.render_colors(), (Color::Gray(0), Color::Gray(255)));
    let b = b.disabled(true);
    assert_eq!(b.render_colors(), (Color::Gray(0), Color::Gray(0x66)));
}
