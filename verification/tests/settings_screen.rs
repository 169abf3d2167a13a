use std::collections::VecDeque;

use kobovnc::color::Color;
use kobovnc::geom::{Dir, Point, Rectangle};
use kobovnc::gesture::GestureEvent;
use kobovnc::input::{ButtonCode, ButtonStatus, DeviceEvent, FingerStatus};
use kobovnc::view::gui::Gui;
use kobovnc::view::{EntryId, EntryKind, Event, IdFeeder, RenderData, UpdateMode, ViewId, Widget};

fn r(x0: i32, y0: i32, x1: i32, y1: i32) -> Rectangle {
    Rectangle::from_coords(x0, y0, x1, y1)
}

fn screen() -> (Gui, IdFeeder, Vec<RenderData>) {
    let mut ids = IdFeeder::new(1);
    let mut rq = Vec::new();
    let gui = Gui::new(
        r(0, 0, 758, 1024),
        &mut ids,
        &mut rq,
        &Some("192.168.1.150"),
        &5900,
        &Some("me".to_string()),
        &None,
        false,
        true,
        212,
        false,
        true,
    );
    (gui, ids, rq)
}

#[test]
fn new_screen_lays_out_its_widgets() {
    let (gui, mut ids, rq) = screen();
    assert_eq!(gui.id(), 1);
    assert!(gui.is_background());
    assert_eq!(gui.focus(), None);
    assert_eq!(ids.next(), 18);
    assert_eq!(rq, vec![RenderData { id: Some(1), rect: r(0, 0, 758, 1024), mode: UpdateMode::Full, wait: true }]);
    assert_eq!(gui.children.len(), 16);
    let rects: Vec<Rectangle> = gui.children.iter().map(|w| w.rect()).collect();
    assert_eq!(
        rects,
        vec![
            r(0, 0, 758, 1024),
            r(0, 0, 379, 86),
            r(379, 0, 758, 86),
            r(0, 86, 758, 86),
            r(0, 86, 379, 172),
            r(379, 86, 758, 172),
            r(0, 172, 758, 258),
            r(0, 172, 758, 258),
            r(0, 258, 379, 344),
            r(379, 258, 758, 344),
            r(0, 344, 379, 430),
            r(379, 344, 758, 430),
            r(0, 430, 379, 516),
            r(379, 430, 758, 516),
            r(0, 516, 379, 602),
            r(379, 516, 758, 602),
        ]
    );
    let ids_of: Vec<u64> = gui.children.iter().map(|w| w.id()).collect();
    assert_eq!(ids_of, (2..18).collect::<Vec<u64>>());
    match &gui.children[0] {
        Widget::Filler(f) => assert_eq!(f.color, Color::Gray(255)),
        _ => panic!("background"),
    }
    match &gui.children[1] {
        Widget::InputField(f) => {
            assert_eq!(f.text, "192.168.1.150");
            assert_eq!(f.placeholder, "Enter host IP");
            assert_eq!(f.view_id, ViewId::GuiInputField1);
            assert!(f.border);
        }
        _ => panic!("host field"),
    }
    match &gui.children[2] {
        Widget::InputField(f) => {
            assert_eq!(f.text, "5900");
            assert_eq!(f.placeholder, "Enter port");
        }
        _ => panic!("port field"),
    }
    match &gui.children[4] {
        Widget::InputField(f) => assert_eq!(f.text, "me"),
        _ => panic!("user field"),
    }
    match &gui.children[5] {
        Widget::PasswordField(f) => {
            assert_eq!(f.text, "");
            assert_eq!(f.placeholder, "Enter password");
        }
        _ => panic!("password field"),
    }
    match &gui.children[7] {
        Widget::OutputField(f) => assert_eq!(f.text, "Console Output"),
        _ => panic!("console"),
    }
    match &gui.children[8] {
        Widget::Button(b) => {
            assert_eq!(b.text, "Start VNC");
            assert!(matches!(b.event, Event::Toggle(ViewId::VNC)));
        }
        _ => panic!("start button"),
    }
    match &gui.children[9] {
        Widget::Button(b) => assert!(matches!(b.event, Event::Back)),
        _ => panic!("quit button"),
    }
    let states: Vec<(bool, String)> = gui.children[12..]
        .iter()
        .map(|w| match w {
            Widget::ToggleButton(t) => (t.is_active(), t.text().clone()),
            _ => panic!("toggle"),
        })
        .collect();
    assert_eq!(
        states,
        vec![
            (true, "Enable scaling".to_string()),
            (false, "Custom encoding".to_string()),
            (true, "Disable Touch".to_string()),
            (false, "Enable Panning".to_string()),
        ]
    );
}

#[test]
fn focus_shows_the_keyboard_and_a_tap_below_the_fields_hides_it() {
    let (mut gui, mut ids, _) = screen();
    let (mut hub, mut bus, mut rq) = (Vec::new(), VecDeque::new(), Vec::new());
    let focus = Event::Focus(Some(ViewId::GuiInputField1));
    assert!(gui.handle_event(&focus, &mut hub, &mut bus, &mut rq, &mut ids, 212));
    assert_eq!(gui.focus(), Some(ViewId::GuiInputField1));
    assert_eq!(gui.children.len(), 18);
    assert_eq!(gui.locate_keyboard(), Some(17));
    assert_eq!(
        rq,
        vec![
            RenderData { id: Some(18), rect: r(0, 680, 758, 681), mode: UpdateMode::Gui, wait: true },
            RenderData { id: Some(19), rect: r(0, 681, 758, 1024), mode: UpdateMode::Gui, wait: true },
        ]
    );
    assert!(hub.is_empty());

    // a second focus keeps the keyboard as it is
    rq.clear();
    assert!(gui.handle_event(&focus, &mut hub, &mut bus, &mut rq, &mut ids, 212));
    assert_eq!(gui.children.len(), 18);
    assert!(rq.is_empty());

    let tap = Event::Gesture(GestureEvent::Tap(Point::new(10, 300)));
    assert!(gui.handle_event(&tap, &mut hub, &mut bus, &mut rq, &mut ids, 212));
    assert_eq!(gui.children.len(), 16);
    assert_eq!(gui.locate_keyboard(), None);
    assert_eq!(rq, vec![RenderData { id: None, rect: r(0, 680, 758, 1024), mode: UpdateMode::Gui, wait: true }]);
    assert_eq!(hub.len(), 1);
    assert!(matches!(hub[0], Event::Focus(None)));
    assert!(bus.is_empty());
}

#[test]
fn tap_on_the_fields_is_left_alone() {
    let (mut gui, mut ids, _) = screen();
    let (mut hub, mut bus, mut rq) = (Vec::new(), VecDeque::new(), Vec::new());
    let tap = Event::Gesture(GestureEvent::Tap(Point::new(10, 10)));
    assert!(!gui.handle_event(&tap, &mut hub, &mut bus, &mut rq, &mut ids, 212));
    assert!(rq.is_empty() && hub.is_empty());
}

#[test]
fn swipe_south_hides_the_keyboard() {
    let (mut gui, mut ids, _) = screen();
    let (mut hub, mut bus, mut rq) = (Vec::new(), VecDeque::new(), Vec::new());
    gui.toggle_keyboard(true, None, &mut hub, &mut rq, &mut ids, 212);
    assert_eq!(gui.children.len(), 18);
    let north = Event::Gesture(GestureEvent::Swipe { dir: Dir::North, start: Point::new(5, 5), end: Point::new(5, 1) });
    assert!(gui.handle_event(&north, &mut hub, &mut bus, &mut rq, &mut ids, 212));
    assert_eq!(gui.children.len(), 18);
    let south = Event::Gesture(GestureEvent::Swipe { dir: Dir::South, start: Point::new(5, 5), end: Point::new(5, 50) });
    assert!(gui.handle_event(&south, &mut hub, &mut bus, &mut rq, &mut ids, 212));
    assert_eq!(gui.children.len(), 16);
    let outside = Event::Gesture(GestureEvent::Swipe { dir: Dir::South, start: Point::new(5, 5000), end: Point::new(5, 6000) });
    assert!(!gui.handle_event(&outside, &mut hub, &mut bus, &mut rq, &mut ids, 212));
}

#[test]
fn orientation_menu_opens_under_its_button() {
    let (mut gui, mut ids, _) = screen();
    let (mut hub, mut bus, mut rq) = (Vec::new(), VecDeque::new(), Vec::new());
    assert!(gui.handle_event(&Event::Toggle(ViewId::OrientationMenu), &mut hub, &mut bus, &mut rq, &mut ids, 212));
    assert_eq!(gui.children.len(), 17);
    match &gui.children[16] {
        Widget::Menu(m) => {
            assert_eq!(m.id, 18);
            assert_eq!(m.rect, r(0, 344, 379, 430));
            assert_eq!(m.view_id, ViewId::OrientationMenu);
            let labels: Vec<(String, EntryId)> = m
                .entries
                .iter()
                .map(|e| match e {
                    EntryKind::Command(l, id) => (l.clone(), *id),
                })
                .collect();
            assert_eq!(
                labels,
                vec![
                    ("Portrait".to_string(), EntryId::Portrait),
                    ("Landscape".to_string(), EntryId::Landscape),
                    ("Inverted Portrait".to_string(), EntryId::IPortrait),
                    ("Inverted Landscape".to_string(), EntryId::ILandscape),
                ]
            );
        }
        _ => panic!("menu"),
    }
    assert_eq!(rq, vec![RenderData { id: Some(1), rect: r(0, 344, 379, 430), mode: UpdateMode::Gui, wait: true }]);
}

#[test]
fn waveform_menu_opens_under_its_button() {
    let (mut gui, mut ids, _) = screen();
    let (mut hub, mut bus, mut rq) = (Vec::new(), VecDeque::new(), Vec::new());
    assert!(gui.handle_event(&Event::Toggle(ViewId::WaveformMenu), &mut hub, &mut bus, &mut rq, &mut ids, 212));
    match &gui.children[16] {
        Widget::Menu(m) => {
            assert_eq!(m.rect, r(379, 344, 758, 430));
            assert_eq!(m.entries.len(), 4);
            assert!(matches!(&m.entries[3], EntryKind::Command(l, EntryId::PartialGL16) if l == "PartialGL16"));
        }
        _ => panic!("menu"),
    }
}

#[test]
fn orientations_are_forwarded_and_waveforms_are_not() {
    let (mut gui, mut ids, _) = screen();
    let (mut hub, mut bus, mut rq) = (Vec::new(), VecDeque::new(), Vec::new());
    assert!(gui.handle_event(&Event::Select(EntryId::Landscape), &mut hub, &mut bus, &mut rq, &mut ids, 212));
    assert!(gui.handle_event(&Event::Select(EntryId::GuiDU), &mut hub, &mut bus, &mut rq, &mut ids, 212));
    assert_eq!(hub.len(), 1);
    assert!(matches!(hub[0], Event::Select(EntryId::Landscape)));
}

#[test]
fn buttons_and_crosses_ask_to_go_back() {
    let (mut gui, mut ids, _) = screen();
    let (mut hub, mut bus, mut rq) = (Vec::new(), VecDeque::new(), Vec::new());
    let pressed = Event::Device(DeviceEvent::Button { code: ButtonCode::Home, status: ButtonStatus::Pressed });
    let released = Event::Device(DeviceEvent::Button { code: ButtonCode::Home, status: ButtonStatus::Released });
    let cross = Event::Gesture(GestureEvent::Cross(Point::new(1, 1)));
    assert!(gui.handle_event(&pressed, &mut hub, &mut bus, &mut rq, &mut ids, 212));
    assert!(!gui.handle_event(&released, &mut hub, &mut bus, &mut rq, &mut ids, 212));
    assert!(gui.handle_event(&cross, &mut hub, &mut bus, &mut rq, &mut ids, 212));
    assert_eq!(hub.len(), 2);
    assert!(hub.iter().all(|e| matches!(e, Event::Back)));
}

#[test]
fn non_empty_submissions_of_connection_fields_are_forwarded() {
    let (mut gui, mut ids, _) = screen();
    let (mut hub, mut bus, mut rq) = (Vec::new(), VecDeque::new(), Vec::new());
    let host = Event::Submit(ViewId::GuiInputField1, "10.0.0.2".to_string());
    let empty = Event::Submit(ViewId::GuiInputField2, String::new());
    let other = Event::Submit(ViewId::VNC, "x".to_string());
    assert!(gui.handle_event(&host, &mut hub, &mut bus, &mut rq, &mut ids, 212));
    assert!(gui.handle_event(&empty, &mut hub, &mut bus, &mut rq, &mut ids, 212));
    assert!(!gui.handle_event(&other, &mut hub, &mut bus, &mut rq, &mut ids, 212));
    assert_eq!(hub.len(), 1);
    assert!(matches!(&hub[0], Event::Submit(ViewId::GuiInputField1, t) if t == "10.0.0.2"));
}

#[test]
fn losing_focus_keeps_the_keyboard() {
    let (mut gui, mut ids, _) = screen();
    let (mut hub, mut bus, mut rq) = (Vec::new(), VecDeque::new(), Vec::new());
    assert!(gui.handle_event(&Event::Focus(Some(ViewId::GuiInputField3)), &mut hub, &mut bus, &mut rq, &mut ids, 212));
    assert!(gui.handle_event(&Event::Focus(None), &mut hub, &mut bus, &mut rq, &mut ids, 212));
    assert_eq!(gui.focus(), None);
    assert_eq!(gui.children.len(), 18);
}

#[test]
fn closing_a_field_removes_it_and_exposes_its_region() {
    let (mut gui, _, _) = screen();
    let mut rq = Vec::new();
    assert!(gui.close_child(ViewId::GuiInputField2, &mut rq));
    assert_eq!(gui.children.len(), 15);
    assert!(gui.children.iter().all(|w| w.view_id() != Some(ViewId::GuiInputField2)));
    assert_eq!(rq, vec![RenderData { id: None, rect: r(379, 0, 758, 86), mode: UpdateMode::Gui, wait: true }]);
}

#[test]
fn closing_an_opened_menu_removes_it() {
    let (mut gui, mut ids, _) = screen();
    let (mut hub, mut bus, mut rq) = (Vec::new(), VecDeque::new(), Vec::new());
    assert!(gui.handle_event(&Event::Toggle(ViewId::OrientationMenu), &mut hub, &mut bus, &mut rq, &mut ids, 212));
    assert_eq!(gui.children.len(), 17);
    let mut rq = Vec::new();
    assert!(gui.close_child(ViewId::OrientationMenu, &mut rq));
    assert_eq!(gui.children.len(), 16);
    assert_eq!(rq, vec![RenderData { id: None, rect: r(0, 344, 379, 430), mode: UpdateMode::Gui, wait: true }]);
}

#[test]
fn closing_an_unknown_view_changes_nothing() {
    let (mut gui, _, _) = screen();
    let mut rq = Vec::new();
    assert!(!gui.close_child(ViewId::WaveformMenu, &mut rq));
    assert_eq!(gui.children.len(), 16);
    assert!(rq.is_empty());
}

#[test]
fn keyboard_comes_and_goes_with_its_black_line() {
    let (mut gui, mut ids, _) = screen();
    let (mut hub, mut rq) = (Vec::new(), Vec::new());
    gui.toggle_keyboard(true, None, &mut hub, &mut rq, &mut ids, 212);
    assert_eq!(gui.children.len(), 18);
    assert!(matches!(gui.children[16], Widget::Filler(ref f) if f.color == Color::Gray(0)));
    assert!(gui.children[17].is_keyboard());
    assert_eq!(gui.children.iter().filter(|w| w.is_keyboard()).count(), 1);
    gui.toggle_keyboard(true, None, &mut hub, &mut rq, &mut ids, 212);
    assert_eq!(gui.children.iter().filter(|w| w.is_keyboard()).count(), 1);
    gui.toggle_keyboard(false, None, &mut hub, &mut rq, &mut ids, 212);
    assert_eq!(gui.children.len(), 16);
    assert!(gui.children.iter().all(|w| !w.is_keyboard()));
}

fn tap(x: i32, y: i32) -> Event {
    Event::Gesture(GestureEvent::Tap(Point::new(x, y)))
}

#[test]
fn tap_on_a_toggle_sends_its_event_to_the_main_loop() {
    let (mut gui, mut ids, _) = screen();
    let (mut hub, mut bus, mut rq) = (Vec::new(), VecDeque::new(), Vec::new());
    assert!(gui.dispatch_event(&tap(500, 450), &mut hub, &mut bus, &mut rq, &mut ids, 212));
    assert!(hub.is_empty());
    assert!(rq.is_empty());
    assert_eq!(bus.len(), 1);
    assert!(matches!(bus[0], Event::Toggle(ViewId::Encoding)));
}

#[test]
fn finger_on_a_toggle_flips_it_and_redraws_it() {
    let (mut gui, mut ids, _) = screen();
    let (mut hub, mut bus, mut rq) = (Vec::new(), VecDeque::new(), Vec::new());
    let down = Event::Device(DeviceEvent::Finger { id: 0, status: FingerStatus::Down, position: Point::new(100, 450) });
    assert!(gui.dispatch_event(&down, &mut hub, &mut bus, &mut rq, &mut ids, 212));
    match &gui.children[12] {
        Widget::ToggleButton(t) => {
            assert!(!t.is_active());
            assert_eq!(t.render_colors(), (Color::Gray(255), Color::Gray(0)));
        }
        _ => panic!("scaling toggle"),
    }
    assert_eq!(rq, vec![RenderData { id: Some(14), rect: r(0, 430, 379, 516), mode: UpdateMode::Gui, wait: true }]);
    assert!(bus.is_empty());
}

#[test]
fn tap_on_the_orientation_button_opens_its_menu() {
    let (mut gui, mut ids, _) = screen();
    let (mut hub, mut bus, mut rq) = (Vec::new(), VecDeque::new(), Vec::new());
    assert!(gui.dispatch_event(&tap(100, 400), &mut hub, &mut bus, &mut rq, &mut ids, 212));
    assert_eq!(gui.children.len(), 17);
    assert_eq!(rq, vec![RenderData { id: Some(1), rect: r(0, 344, 379, 430), mode: UpdateMode::Gui, wait: true }]);
    assert!(bus.is_empty());
    assert!(hub.is_empty());
}

#[test]
fn tap_on_quit_goes_back_to_the_main_loop() {
    let (mut gui, mut ids, _) = screen();
    let (mut hub, mut bus, mut rq) = (Vec::new(), VecDeque::new(), Vec::new());
    assert!(gui.dispatch_event(&tap(500, 300), &mut hub, &mut bus, &mut rq, &mut ids, 212));
    assert_eq!(bus.len(), 1);
    assert!(matches!(bus[0], Event::Back));
}

#[test]
fn tap_on_no_widget_goes_to_the_screen() {
    let (mut gui, mut ids, _) = screen();
    let (mut hub, mut bus, mut rq) = (Vec::new(), VecDeque::new(), Vec::new());
    assert!(gui.dispatch_event(&tap(100, 650), &mut hub, &mut bus, &mut rq, &mut ids, 212));
    assert!(bus.is_empty() && hub.is_empty() && rq.is_empty());
    assert_eq!(gui.children.len(), 16);
}
