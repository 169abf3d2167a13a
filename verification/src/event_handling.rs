//! Decisions taken on the touch and button events of a VNC session: which pointer
//! events to send to the server, how swipes pan the view over a remote screen larger
//! than the device's, and when the session ends.
use vstd::prelude::*;
use std::time::Instant;
use crate::geom::{Dir, Point};
use crate::gesture::GestureEvent;
use crate::input::{ButtonCode, ButtonStatus, DeviceEvent, FingerStatus};
use crate::view::Event;

verus! {

/// `std::time::Instant`, a point in time, carried through as an opaque value: the
/// library stores and compares it, and asserts nothing about it.
#[verifier::external_type_specification]
#[verifier::external_body]
pub struct ExInstant(std::time::Instant);

/// Where a pointer event goes on the remote screen.
#[derive(Clone, Copy, Debug, PartialEq, Eq, Structural)]
pub enum PointerPosition {
    /// The touch position on the device, still to be mapped through the scale factor.
    Scaled { x: i32, y: i32 },
    /// The position on the remote screen.
    Direct { x: u16, y: u16 },
}

/// What the session sends to the VNC server.
#[derive(Clone, Copy, Debug, PartialEq, Eq, Structural)]
pub enum VncCommand {
    /// A pointer event with the given button mask (1: left button down, 4: right
    /// button down, 0: all released).
    Pointer { buttons: u8, position: PointerPosition },
    /// A request for the pixels of a region of the remote screen.
    RequestUpdate { left: u16, top: u16, width: u16, height: u16 },
}

/// The settings of a session that the event decisions depend on.
#[derive(Clone, Copy, Debug, PartialEq, Eq, Structural)]
pub struct TouchSettings {
    /// Size of the remote screen.
    pub width: u16,
    pub height: u16,
    /// Size of the device's screen.
    pub fb_width: u32,
    pub fb_height: u32,
    /// Offset of the remote screen's image on the device's screen.
    pub x_padding: u32,
    pub y_padding: u32,
    /// Swipes pan the view instead of dragging.
    pub panning: bool,
    /// The remote screen is scaled to fit the device's.
    pub scale: bool,
    /// A long touch sends a right click.
    pub long_tap: bool,
    /// The session was started from the settings screen.
    pub gui_enabled: bool,
    pub disable_touch: bool,
    pub disable_exit_via_hold: bool,
}

/// The state of a session after an event: whether the screen has been drawn since
/// the view last moved, when the current touch started, whether to leave the session
/// for the reader (`exit_to_nickel`) or for the settings screen (`exit_to_gui`), and
/// the offset of the view over the remote screen.
#[allow(non_camel_case_types)]
pub struct event_params {
    pub has_drawn_once: bool,
    pub finger_down_count: Instant,
    pub exit_to_nickel: bool,
    pub exit_to_gui: bool,
    pub x_offset: u32,
    pub y_offset: u32,
}

/// The remote coordinate of a touch coordinate `p` when the screen is not scaled, as
/// the client computes it on 16-bit integers: the padding is taken off, the offset
/// of the view added, and the result read as unsigned and kept at most `limit`.
pub open spec fn direct_coord(p: i32, padding: u32, offset: u32, limit: u16) -> u16 {
    let v = (((p as i16) - (padding as i16) + (offset as i16)) as i16) as u16;
    if v > limit {
        limit
    } else {
        v
    }
}

/// The 16-bit computation of `direct_coord` does not overflow.
pub open spec fn direct_coord_defined(p: i32, padding: u32, offset: u32) -> bool {
    &&& i16::MIN <= (p as i16) - (padding as i16) <= i16::MAX
    &&& i16::MIN <= (p as i16) - (padding as i16) + (offset as i16) <= i16::MAX
}

pub fn direct_coordinate(p: i32, padding: u32, offset: u32, limit: u16) -> (c: u16)
    requires
        direct_coord_defined(p, padding, offset),
    ensures
        c == direct_coord(p, padding, offset, limit),
{
    let a: i16 = p as i16;
    let b: i16 = padding as i16;
    let o: i16 = offset as i16;
    let v = (a - b + o) as u16;
    if v > limit {
        limit
    } else {
        v
    }
}

/// Where a pointer event for a touch at `p` goes.
pub open spec fn pointer_at(s: TouchSettings, x_offset: u32, y_offset: u32, p: Point) -> PointerPosition {
    if s.scale {
        PointerPosition::Scaled { x: p.x, y: p.y }
    } else {
        PointerPosition::Direct {
            x: direct_coord(p.x, s.x_padding, x_offset, s.width),
            y: direct_coord(p.y, s.y_padding, y_offset, s.height),
        }
    }
}

pub open spec fn pointer(buttons: u8, at: PointerPosition) -> VncCommand {
    VncCommand::Pointer { buttons, position: at }
}

/// The pointer events that a finger sends. Nothing while touch is disabled. A finger
/// that goes down or moves presses the left button, unless swipes pan. A finger that
/// goes up: with long taps, clicks the right button when it was held long enough; else
/// releases the buttons, after pressing the left one when the screen is panned without
/// scaling.
pub open spec fn finger_commands(
    s: TouchSettings,
    x_offset: u32,
    y_offset: u32,
    status: FingerStatus,
    p: Point,
    held_past_long_tap: bool,
) -> Seq<VncCommand> {
    let at = pointer_at(s, x_offset, y_offset, p);
    if s.disable_touch {
        Seq::empty()
    } else {
        match status {
            FingerStatus::Up => {
                if s.long_tap {
                    if held_past_long_tap {
                        seq![pointer(4, at), pointer(0, at)]
                    } else {
                        Seq::empty()
                    }
                } else if !s.scale && s.panning {
                    seq![pointer(1, at), pointer(0, at)]
                } else {
                    seq![pointer(0, at)]
                }
            },
            FingerStatus::Down | FingerStatus::Motion => {
                if s.panning {
                    Seq::empty()
                } else {
                    seq![pointer(1, at)]
                }
            },
        }
    }
}

/// Where a swipe moves the view: the new offsets, and whether the view may move on
/// that axis at all (the remote screen is larger than the device's on it). A swipe
/// north or west moves half a screen down or right, but no further than the last
/// full screen; a swipe south or east moves half a screen up or left, to the origin
/// when less than a screen is left.
pub struct Pan {
    pub x_offset: u32,
    pub y_offset: u32,
    pub moved: bool,
}

pub open spec fn pan(dir: Dir, x_offset: u32, y_offset: u32, s: TouchSettings) -> Pan {
    let (w, h, fw, fh) = (s.width as int, s.height as int, s.fb_width as int, s.fb_height as int);
    let can_x = s.width > (s.fb_width as u16);
    let can_y = s.height > (s.fb_height as u16);
    match dir {
        Dir::North => if can_y {
            Pan {
                x_offset,
                y_offset: if y_offset + fh + fh / 2 < h {
                    (y_offset + fh / 2) as u32
                } else {
                    (h - fh) as u32
                },
                moved: true,
            }
        } else {
            Pan { x_offset, y_offset, moved: false }
        },
        Dir::East => if can_x {
            Pan {
                x_offset: if x_offset > fw {
                    (x_offset - fw / 2) as u32
                } else {
                    0
                },
                y_offset,
                moved: true,
            }
        } else {
            Pan { x_offset, y_offset, moved: false }
        },
        Dir::South => if can_y {
            Pan {
                x_offset,
                y_offset: if y_offset > fh {
                    (y_offset - fh / 2) as u32
                } else {
                    0
                },
                moved: true,
            }
        } else {
            Pan { x_offset, y_offset, moved: false }
        },
        Dir::West => if can_x {
            Pan {
                x_offset: if x_offset + fw + fw / 2 < w {
                    (x_offset + fw / 2) as u32
                } else {
                    (w - fw) as u32
                },
                y_offset,
                moved: true,
            }
        } else {
            Pan { x_offset, y_offset, moved: false }
        },
    }
}

/// The unsigned 32-bit computations of a pan neither overflow nor go below zero.
pub open spec fn pan_defined(dir: Dir, x_offset: u32, y_offset: u32, s: TouchSettings) -> bool {
    let (w, h, fw, fh) = (s.width as int, s.height as int, s.fb_width as int, s.fb_height as int);
    match dir {
        Dir::North => s.height > (s.fb_height as u16) ==> {
            &&& y_offset + fh <= u32::MAX
            &&& y_offset + fh + fh / 2 <= u32::MAX
            &&& !(y_offset + fh + fh / 2 < h) ==> (fh <= h && y_offset <= h - fh)
        },
        Dir::West => s.width > (s.fb_width as u16) ==> {
            &&& x_offset + fw <= u32::MAX
            &&& x_offset + fw + fw / 2 <= u32::MAX
            &&& !(x_offset + fw + fw / 2 < w) ==> (fw <= w && x_offset <= w - fw)
        },
        _ => true,
    }
}

/// Pans the view after a swipe towards `dir`, as `pan` says.
pub fn pan_offsets(dir: Dir, x_offset: u32, y_offset: u32, s: &TouchSettings) -> (r: (u32, u32, bool))
    requires
        pan_defined(dir, x_offset, y_offset, *s),
    ensures
        r.0 == pan(dir, x_offset, y_offset, *s).x_offset,
        r.1 == pan(dir, x_offset, y_offset, *s).y_offset,
        r.2 == pan(dir, x_offset, y_offset, *s).moved,
{
    let mut x_offset = x_offset;
    let mut y_offset = y_offset;
    let mut moved = false;
    let fb_width = s.fb_width;
    let fb_height = s.fb_height;
    match dir {
        Dir::North => {
            if s.height > fb_height as u16 {
                moved = true;
                if y_offset + fb_height + fb_height / 2 < s.height as u32 {
                    y_offset += fb_height / 2;
                } else {
                    y_offset += s.height as u32 - fb_height - y_offset;
                }
            }
        },
        Dir::East => {
            if s.width > fb_width as u16 {
                moved = true;
                if x_offset > fb_width {
                    x_offset -= fb_width / 2;
                } else {
                    x_offset = 0;
                }
            }
        },
        Dir::South => {
            if s.height > fb_height as u16 {
                moved = true;
                if y_offset > fb_height {
                    y_offset -= fb_height / 2;
                } else {
                    y_offset = 0;
                }
            }
        },
        Dir::West => {
            if s.width > fb_width as u16 {
                moved = true;
                if x_offset + fb_width + fb_width / 2 < s.width as u32 {
                    x_offset += fb_width / 2;
                } else {
                    x_offset += s.width as u32 - fb_width - x_offset;
                }
            }
        },
    }
    (x_offset, y_offset, moved)
}

/// What a session does with one event: the new offsets, whether the screen still
/// counts as drawn, whether the touch timer restarts, whether the session ends, and
/// what it sends to the server.
pub struct TouchOutcome {
    pub x_offset: u32,
    pub y_offset: u32,
    pub has_drawn_once: bool,
    pub restart_timer: bool,
    pub exit: bool,
    pub commands: Seq<VncCommand>,
}

/// How a session answers an event (or its absence). A finger (of index 0, 1 or 2)
/// sends pointer events as `finger_commands` says; a finger that goes down restarts
/// the touch timer, and one that goes up after the exit delay ends the session unless
/// that is disabled. The power button and a closed cover end the session. While swipes
/// pan, a swipe pans the view, marks the screen as to be drawn again when the view can
/// move, and asks for the pixels of the new view. Anything else changes nothing.
pub open spec fn touch_outcome(
    evt: Option<Event>,
    s: TouchSettings,
    x_offset: u32,
    y_offset: u32,
    has_drawn_once: bool,
    held_past_long_tap: bool,
    held_past_exit: bool,
) -> TouchOutcome {
    let nothing = TouchOutcome {
        x_offset,
        y_offset,
        has_drawn_once,
        restart_timer: false,
        exit: false,
        commands: Seq::empty(),
    };
    match evt {
        Some(Event::Device(DeviceEvent::Finger { id, status, position })) => {
            if 0 <= id <= 2 {
                TouchOutcome {
                    restart_timer: status == FingerStatus::Down,
                    exit: status == FingerStatus::Up && held_past_exit && !s.disable_exit_via_hold,
                    commands: finger_commands(s, x_offset, y_offset, status, position, held_past_long_tap),
                    ..nothing
                }
            } else {
                nothing
            }
        },
        Some(Event::Device(DeviceEvent::Button { code: ButtonCode::Power, status: ButtonStatus::Pressed })) => {
            TouchOutcome { exit: true, ..nothing }
        },
        Some(Event::Device(DeviceEvent::CoverOn)) => TouchOutcome { exit: true, ..nothing },
        Some(Event::Gesture(GestureEvent::Swipe { dir, .. })) => {
            if s.panning {
                let p = pan(dir, x_offset, y_offset, s);
                TouchOutcome {
                    x_offset: p.x_offset,
                    y_offset: p.y_offset,
                    has_drawn_once: if p.moved {
                        false
                    } else {
                        has_drawn_once
                    },
                    commands: seq![
                        VncCommand::RequestUpdate {
                            left: p.x_offset as u16,
                            top: p.y_offset as u16,
                            width: s.fb_width as u16,
                            height: s.fb_height as u16,
                        },
                    ],
                    ..nothing
                }
            } else {
                nothing
            }
        },
        _ => nothing,
    }
}

/// The computations of `touch_outcome` stay within the range of their types.
pub open spec fn touch_defined(evt: Option<Event>, s: TouchSettings, x_offset: u32, y_offset: u32) -> bool {
    match evt {
        Some(Event::Device(DeviceEvent::Finger { id, status, position })) => {
            (0 <= id <= 2 && !s.scale && !s.disable_touch) ==> {
                &&& direct_coord_defined(position.x, s.x_padding, x_offset)
                &&& direct_coord_defined(position.y, s.y_padding, y_offset)
            }
        },
        Some(Event::Gesture(GestureEvent::Swipe { dir, .. })) => s.panning ==> pan_defined(
            dir,
            x_offset,
            y_offset,
            s,
        ),
        _ => true,
    }
}

fn pointer_position(s: &TouchSettings, x_offset: u32, y_offset: u32, p: Point) -> (r: PointerPosition)
    requires
        !s.scale ==> direct_coord_defined(p.x, s.x_padding, x_offset) && direct_coord_defined(
            p.y,
            s.y_padding,
            y_offset,
        ),
    ensures
        r == pointer_at(*s, x_offset, y_offset, p),
{
    if s.scale {
        PointerPosition::Scaled { x: p.x, y: p.y }
    } else {
        PointerPosition::Direct {
            x: direct_coordinate(p.x, s.x_padding, x_offset, s.width),
            y: direct_coordinate(p.y, s.y_padding, y_offset, s.height),
        }
    }
}

fn finger_commands_exec(
    s: &TouchSettings,
    x_offset: u32,
    y_offset: u32,
    status: FingerStatus,
    p: Point,
    held_past_long_tap: bool,
) -> (c: Vec<VncCommand>)
    requires
        !s.scale && !s.disable_touch ==> direct_coord_defined(p.x, s.x_padding, x_offset)
            && direct_coord_defined(p.y, s.y_padding, y_offset),
    ensures
        c@ == finger_commands(*s, x_offset, y_offset, status, p, held_past_long_tap),
{
    let mut c: Vec<VncCommand> = Vec::new();
    if s.disable_touch {
        return c;
    }
    let at = pointer_position(s, x_offset, y_offset, p);
    match status {
        FingerStatus::Up => {
            if s.long_tap {
                if held_past_long_tap {
                    c.push(VncCommand::Pointer { buttons: 0x04, position: at });
                    c.push(VncCommand::Pointer { buttons: 0x00, position: at });
                }
            } else if !s.scale && s.panning {
                c.push(VncCommand::Pointer { buttons: 0x01, position: at });
                c.push(VncCommand::Pointer { buttons: 0x00, position: at });
            } else {
                c.push(VncCommand::Pointer { buttons: 0x00, position: at });
            }
        },
        FingerStatus::Down | FingerStatus::Motion => {
            if !s.panning {
                c.push(VncCommand::Pointer { buttons: 0x01, position: at });
            }
        },
    }
    proof {
        assert(c@ =~= finger_commands(*s, x_offset, y_offset, status, p, held_past_long_tap));
    }
    c
}

impl event_params {
    /// Answers one event of a session (none when `evt` is `None`), as `touch_outcome`
    /// says. `now` is the time of the event; `held_past_long_tap` and `held_past_exit`
    /// tell whether the current touch has lasted longer than the long-tap and the exit
    /// delays. Returns the new state and the commands to send to the server, in order.
    pub fn handle_events(
        evt: &Option<Event>,
        s: &TouchSettings,
        x_offset: u32,
        y_offset: u32,
        finger_down_count: Instant,
        now: Instant,
        has_drawn_once: bool,
        held_past_long_tap: bool,
        held_past_exit: bool,
    ) -> (r: (event_params, Vec<VncCommand>))
        requires
            touch_defined(*evt, *s, x_offset, y_offset),
        ensures
            ({
                let o = touch_outcome(
                    *evt,
                    *s,
                    x_offset,
                    y_offset,
                    has_drawn_once,
                    held_past_long_tap,
                    held_past_exit,
                );
                &&& r.0.x_offset == o.x_offset
                &&& r.0.y_offset == o.y_offset
                &&& r.0.has_drawn_once == o.has_drawn_once
                &&& r.0.finger_down_count == if o.restart_timer {
                    now
                } else {
                    finger_down_count
                }
                &&& r.0.exit_to_nickel == (o.exit && !s.gui_enabled)
                &&& r.0.exit_to_gui == (o.exit && s.gui_enabled)
                &&& r.1@ == o.commands
            }),
    {
        let ghost x0 = x_offset;
        let ghost y0 = y_offset;
        let ghost d0 = has_drawn_once;
        let mut x_offset = x_offset;
        let mut y_offset = y_offset;
        let mut has_drawn_once = has_drawn_once;
        let mut finger_down_count = finger_down_count;
        let mut exit = false;
        let mut commands: Vec<VncCommand> = Vec::new();
        match evt {
            Some(Event::Device(DeviceEvent::Finger { id, status, position })) => {
                if 0 <= *id && *id <= 2 {
                    commands = finger_commands_exec(
                        s,
                        x_offset,
                        y_offset,
                        *status,
                        *position,
                        held_past_long_tap,
                    );
                    match status {
                        FingerStatus::Up => {
                            if held_past_exit && !s.disable_exit_via_hold {
                                exit = true;
                            }
                        },
                        FingerStatus::Down => {
                            finger_down_count = now;
                        },
                        FingerStatus::Motion => {},
                    }
                }
            },
            Some(Event::Device(DeviceEvent::Button { code: ButtonCode::Power, status: ButtonStatus::Pressed })) => {
                exit = true;
            },
            Some(Event::Device(DeviceEvent::CoverOn)) => {
                exit = true;
            },
            Some(Event::Gesture(GestureEvent::Swipe { dir, .. })) => {
                if s.panning {
                    let (nx, ny, moved) = pan_offsets(*dir, x_offset, y_offset, s);
                    x_offset = nx;
                    y_offset = ny;
                    if moved {
                        has_drawn_once = false;
                    }
                    commands.push(
                        VncCommand::RequestUpdate {
                            left: x_offset as u16,
                            top: y_offset as u16,
                            width: s.fb_width as u16,
                            height: s.fb_height as u16,
                        },
                    );
                    proof {
                        assert(commands@ =~= touch_outcome(
                            *evt,
                            *s,
                            x0,
                            y0,
                            d0,
                            held_past_long_tap,
                            held_past_exit,
                        ).commands);
                    }
                }
            },
            _ => {},
        }
        let params = event_params {
            has_drawn_once,
            finger_down_count,
            exit_to_nickel: exit && !s.gui_enabled,
            exit_to_gui: exit && s.gui_enabled,
            x_offset,
            y_offset,
        };
        (params, commands)
    }
}

/// A pan keeps the view within the remote screen: when the view lay within it
/// before the swipe, it lies within it afterwards.
pub proof fn law_pan_keeps_view_inside(dir: Dir, x_offset: u32, y_offset: u32, s: TouchSettings)
    requires
        s.fb_width <= u16::MAX,
        s.fb_height <= u16::MAX,
        x_offset + s.fb_width <= s.width || s.width <= s.fb_width,
        y_offset + s.fb_height <= s.height || s.height <= s.fb_height,
        pan_defined(dir, x_offset, y_offset, s),
    ensures
        ({
            let p = pan(dir, x_offset, y_offset, s);
            &&& (x_offset + s.fb_width <= s.width ==> p.x_offset + s.fb_width <= s.width)
            &&& (y_offset + s.fb_height <= s.height ==> p.y_offset + s.fb_height <= s.height)
        }),
{
}

/// A swipe north or west never moves the view back, a swipe south or east never
/// moves it forward, and a swipe leaves the other axis as it was.
pub proof fn law_pan_moves_one_way(dir: Dir, x_offset: u32, y_offset: u32, s: TouchSettings)
    requires
        pan_defined(dir, x_offset, y_offset, s),
    ensures
        ({
            let p = pan(dir, x_offset, y_offset, s);
            match dir {
                Dir::North => p.y_offset >= y_offset && p.x_offset == x_offset,
                Dir::South => p.y_offset <= y_offset && p.x_offset == x_offset,
                Dir::West => p.x_offset >= x_offset && p.y_offset == y_offset,
                Dir::East => p.x_offset <= x_offset && p.y_offset == y_offset,
            }
        }),
{
}

/// With touch input disabled, no event sends a pointer event to the server.
pub proof fn law_disabled_touch_sends_no_pointer(
    evt: Option<Event>,
    s: TouchSettings,
    x_offset: u32,
    y_offset: u32,
    has_drawn_once: bool,
    held_past_long_tap: bool,
    held_past_exit: bool,
)
    requires
        s.disable_touch,
    ensures
        ({
            let o = touch_outcome(evt, s, x_offset, y_offset, has_drawn_once, held_past_long_tap, held_past_exit);
            forall|i: int| 0 <= i < o.commands.len() ==> !(#[trigger] o.commands[i] is Pointer)
        }),
{
}

/// With exit by holding disabled, only the power button and the cover end a session.
pub proof fn law_exit_only_by_button_or_cover(
    evt: Option<Event>,
    s: TouchSettings,
    x_offset: u32,
    y_offset: u32,
    has_drawn_once: bool,
    held_past_long_tap: bool,
    held_past_exit: bool,
)
    requires
        s.disable_exit_via_hold,
    ensures
        touch_outcome(evt, s, x_offset, y_offset, has_drawn_once, held_past_long_tap, held_past_exit).exit
            <==> (evt == Some(Event::Device(DeviceEvent::Button { code: ButtonCode::Power, status: ButtonStatus::Pressed }))
            || evt == Some(Event::Device(DeviceEvent::CoverOn))),
{
}

/// Only three things end a session: a finger (of the first three) going up after the
/// exit delay, while exit by holding is enabled; the power button pressed; the cover
/// closed. A finger going down or moving never ends it.
pub proof fn law_exit_only_by_release_button_or_cover(
    evt: Option<Event>,
    s: TouchSettings,
    x_offset: u32,
    y_offset: u32,
    has_drawn_once: bool,
    held_past_long_tap: bool,
    held_past_exit: bool,
)
    ensures
        touch_outcome(evt, s, x_offset, y_offset, has_drawn_once, held_past_long_tap, held_past_exit).exit
            <==> ((exists|id: i32, p: Point|
            0 <= id <= 2 && evt == Some(Event::Device(DeviceEvent::Finger { id, status: FingerStatus::Up, position: p })))
            && held_past_exit && !s.disable_exit_via_hold) || evt == Some(
            Event::Device(DeviceEvent::Button { code: ButtonCode::Power, status: ButtonStatus::Pressed }),
        ) || evt == Some(Event::Device(DeviceEvent::CoverOn)),
{
    let o = touch_outcome(evt, s, x_offset, y_offset, has_drawn_once, held_past_long_tap, held_past_exit);
    match evt {
        Some(Event::Device(DeviceEvent::Finger { id, status, position })) => {
            if 0 <= id <= 2 && status == FingerStatus::Up && held_past_exit && !s.disable_exit_via_hold {
                assert(evt == Some(Event::Device(DeviceEvent::Finger { id, status: FingerStatus::Up, position })));
            }
        },
        _ => {},
    }
}

/// A finger (of the first three) going down restarts the touch timer and never ends
/// the session; with touch enabled and no panning, it presses the left button (mask
/// 1) at the point touched, and sends nothing else.
pub proof fn law_finger_down_presses(
    id: i32,
    position: Point,
    s: TouchSettings,
    x_offset: u32,
    y_offset: u32,
    has_drawn_once: bool,
    held_past_long_tap: bool,
    held_past_exit: bool,
)
    requires
        0 <= id <= 2,
    ensures
        ({
            let evt = Some(Event::Device(DeviceEvent::Finger { id, status: FingerStatus::Down, position }));
            let o = touch_outcome(evt, s, x_offset, y_offset, has_drawn_once, held_past_long_tap, held_past_exit);
            &&& o.restart_timer
            &&& !o.exit
            &&& o.x_offset == x_offset && o.y_offset == y_offset
            &&& !s.disable_touch && !s.panning ==> o.commands == seq![
                VncCommand::Pointer { buttons: 1, position: pointer_at(s, x_offset, y_offset, position) },
            ]
        }),
{
}

/// A swipe on an axis where the remote screen exceeds the device's moves the view by
/// half a screen: north (west) down (right) by exactly half a screen while a full
/// screen and a half still fit, else to the last full screen; south (east) up (left)
/// by exactly half a screen while the view lies more than a screen from the origin,
/// else to the origin. So north (west) moves the view strictly while it is not at the
/// last full screen, and south (east) strictly while it is not at the origin.
pub proof fn law_pan_moves_half_a_screen(dir: Dir, x_offset: u32, y_offset: u32, s: TouchSettings)
    requires
        pan_defined(dir, x_offset, y_offset, s),
        2 <= s.fb_width <= u16::MAX,
        2 <= s.fb_height <= u16::MAX,
    ensures
        ({
            let p = pan(dir, x_offset, y_offset, s);
            let (x, y, fw, fh, w, h) = (x_offset as int, y_offset as int, s.fb_width as int, s.fb_height as int, s.width as int, s.height as int);
            match dir {
                Dir::North => h > fh ==> {
                    &&& p.moved
                    &&& (y + fh + fh / 2 < h ==> p.y_offset == y + fh / 2)
                    &&& (y + fh + fh / 2 >= h ==> p.y_offset == h - fh)
                    &&& (y + fh < h ==> y < p.y_offset <= y + fh / 2)
                },
                Dir::West => w > fw ==> {
                    &&& p.moved
                    &&& (x + fw + fw / 2 < w ==> p.x_offset == x + fw / 2)
                    &&& (x + fw + fw / 2 >= w ==> p.x_offset == w - fw)
                    &&& (x + fw < w ==> x < p.x_offset <= x + fw / 2)
                },
                Dir::South => h > fh ==> {
                    &&& p.moved
                    &&& (y > fh ==> p.y_offset == y - fh / 2)
                    &&& (y <= fh ==> p.y_offset == 0)
                    &&& (y > 0 ==> p.y_offset < y)
                },
                Dir::East => w > fw ==> {
                    &&& p.moved
                    &&& (x > fw ==> p.x_offset == x - fw / 2)
                    &&& (x <= fw ==> p.x_offset == 0)
                    &&& (x > 0 ==> p.x_offset < x)
                },
            }
        }),
{
}

/// Without scaling, a touch maps to the remote screen by taking off the padding and
/// adding the view's offset, kept at most the remote screen's side: for small enough
/// numbers, a point that lands within the remote screen lands exactly there, and one
/// past it lands on its last column or row.
pub proof fn law_touch_lands_under_the_finger(p: i32, padding: u32, offset: u32, limit: u16)
    requires
        0 <= p < 0x2000,
        padding < 0x2000,
        offset < 0x2000,
        padding <= p,
    ensures
        p - padding + offset <= limit ==> direct_coord(p, padding, offset, limit) == p - padding + offset,
        p - padding + offset > limit ==> direct_coord(p, padding, offset, limit) == limit,
{
}

} // verus!
