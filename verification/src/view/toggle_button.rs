//! A button that stays pressed or released between taps.
use vstd::prelude::*;
use std::collections::VecDeque;
use crate::color::{Color, black, white, gray_step};
use crate::geom::Rectangle;
use crate::gesture::GestureEvent;
use crate::input::{DeviceEvent, FingerStatus};
use crate::view::{Event, Id, IdFeeder, RenderData, UpdateMode};

verus! {

/// A button with two states. A finger that touches it flips its state; a tap on it
/// sends its event, unless it is disabled.
#[allow(non_camel_case_types)]
pub struct Toggle_Button {
    pub id: Id,
    pub rect: Rectangle,
    pub event: Event,
    pub text: String,
    pub active: bool,
    pub disabled: bool,
}

/// What a toggle button is.
pub struct ToggleButtonModel {
    pub id: Id,
    pub rect: Rectangle,
    pub event: Event,
    pub text: Seq<char>,
    pub active: bool,
    pub disabled: bool,
}

impl View for Toggle_Button {
    type V = ToggleButtonModel;

    open spec fn view(&self) -> ToggleButtonModel {
        ToggleButtonModel {
            id: self.id,
            rect: self.rect,
            event: self.event,
            text: self.text@,
            active: self.active,
            disabled: self.disabled,
        }
    }
}

/// What a toggle button does with an event: its new state, the redraw it asks for,
/// the event it puts on the bus, and whether it consumed the event.
pub struct ToggleOutcome {
    pub button: ToggleButtonModel,
    pub render: Option<RenderData>,
    pub sent: Option<Event>,
    pub handled: bool,
}

/// The redraw of the whole button, with the waveform of the interface.
pub open spec fn redraw_of(b: ToggleButtonModel) -> RenderData {
    RenderData { id: Some(b.id), rect: b.rect, mode: UpdateMode::Gui, wait: true }
}

/// How a toggle button answers `evt`. While it is enabled, a finger that goes down
/// on it flips its state and redraws it; a finger that goes up while it is active
/// redraws it, and is consumed only when it lies on the button. A tap on the button is
/// consumed, and sends the button's event when the button is enabled. Anything else is
/// left alone.
pub open spec fn toggle_outcome(b: ToggleButtonModel, evt: Event) -> ToggleOutcome {
    let unchanged = ToggleOutcome { button: b, render: None, sent: None, handled: false };
    match evt {
        Event::Device(DeviceEvent::Finger { status, position, .. }) => {
            if b.disabled {
                unchanged
            } else {
                match status {
                    FingerStatus::Down => {
                        if b.rect.spec_includes(position) {
                            let nb = ToggleButtonModel { active: !b.active, ..b };
                            ToggleOutcome {
                                button: nb,
                                render: Some(redraw_of(b)),
                                sent: None,
                                handled: true,
                            }
                        } else {
                            unchanged
                        }
                    },
                    FingerStatus::Up => {
                        if b.active {
                            ToggleOutcome {
                                button: b,
                                render: Some(redraw_of(b)),
                                sent: None,
                                handled: b.rect.spec_includes(position),
                            }
                        } else {
                            unchanged
                        }
                    },
                    FingerStatus::Motion => unchanged,
                }
            }
        },
        Event::Gesture(GestureEvent::Tap(center)) => {
            if b.rect.spec_includes(center) {
                ToggleOutcome {
                    button: b,
                    render: None,
                    sent: if b.disabled {
                        None
                    } else {
                        Some(b.event)
                    },
                    handled: true,
                }
            } else {
                unchanged
            }
        },
        _ => unchanged,
    }
}

/// The background and foreground colors of a toggle button: black on white when
/// released, white on black when pressed; a disabled button draws its border and
/// label in gray.
pub open spec fn toggle_colors(b: ToggleButtonModel) -> (Color, Color) {
    if b.active {
        (black(), if b.disabled {
            gray_step(6)
        } else {
            white()
        })
    } else {
        (white(), if b.disabled {
            gray_step(8)
        } else {
            black()
        })
    }
}

impl Toggle_Button {
    /// A released or pressed (`previous_state`) button with the label `text`, which
    /// sends `event` when tapped. Its identifier is the next one of `ids`.
    pub fn new(
        rect: Rectangle,
        previous_state: bool,
        event: Event,
        text: String,
        ids: &mut IdFeeder,
    ) -> (b: Toggle_Button)
        requires
            old(ids)@ < u64::MAX,
        ensures
            b@ == (ToggleButtonModel {
                id: old(ids)@,
                rect,
                event,
                text: text@,
                active: previous_state,
                disabled: false,
            }),
            final(ids)@ == old(ids)@ + 1,
    {
        Toggle_Button { id: ids.next(), rect, event, text, active: previous_state, disabled: false }
    }

    /// The same button, enabled or disabled.
    pub fn disabled(self, value: bool) -> (b: Toggle_Button)
        ensures
            b@ == (ToggleButtonModel { disabled: value, ..self@ }),
    {
        let mut b = self;
        b.disabled = value;
        b
    }

    pub fn id(&self) -> (id: Id)
        ensures
            id == self@.id,
    {
        self.id
    }

    pub fn rect(&self) -> (r: Rectangle)
        ensures
            r == self@.rect,
    {
        self.rect
    }

    pub fn is_active(&self) -> (a: bool)
        ensures
            a == self@.active,
    {
        self.active
    }

    pub fn text(&self) -> (t: &String)
        ensures
            t@ == self@.text,
    {
        &self.text
    }

    pub fn event(&self) -> (e: &Event)
        ensures
            *e == self@.event,
    {
        &self.event
    }

    /// Answers `evt` as `toggle_outcome` says: updates the state, queues the redraw on
    /// `rq` and the event on `bus`, and tells whether the event was consumed.
    pub fn handle_event(
        &mut self,
        evt: &Event,
        hub: &mut Vec<Event>,
        bus: &mut VecDeque<Event>,
        rq: &mut Vec<RenderData>,
    ) -> (handled: bool)
        ensures
            final(self)@ == toggle_outcome(old(self)@, *evt).button,
            handled == toggle_outcome(old(self)@, *evt).handled,
            final(rq)@ == match toggle_outcome(old(self)@, *evt).render {
                Some(r) => old(rq)@.push(r),
                None => old(rq)@,
            },
            final(bus)@ == match toggle_outcome(old(self)@, *evt).sent {
                Some(e) => old(bus)@.push(e),
                None => old(bus)@,
            },
            final(hub)@ == old(hub)@,
    {
        match evt {
            Event::Device(DeviceEvent::Finger { status, position, .. }) => {
                if self.disabled {
                    return false;
                }
                match status {
                    FingerStatus::Down => {
                        if self.rect.includes(*position) {
                            self.active = !self.active;
                            rq.push(RenderData::new(self.id, self.rect, UpdateMode::Gui));
                            true
                        } else {
                            false
                        }
                    },
                    FingerStatus::Up => {
                        if self.active {
                            rq.push(RenderData::new(self.id, self.rect, UpdateMode::Gui));
                            self.rect.includes(*position)
                        } else {
                            false
                        }
                    },
                    FingerStatus::Motion => false,
                }
            },
            Event::Gesture(GestureEvent::Tap(center)) => {
                if self.rect.includes(*center) {
                    if !self.disabled {
                        bus.push_back(self.event.duplicate());
                    }
                    true
                } else {
                    false
                }
            },
            _ => false,
        }
    }

    /// The background and foreground colors with which the button is drawn.
    pub fn render_colors(&self) -> (c: (Color, Color))
        ensures
            c == toggle_colors(self@),
    {
        if self.active {
            (Color::Gray(0), if self.disabled {
                Color::Gray(0x66)
            } else {
                Color::Gray(255)
            })
        } else {
            (Color::Gray(255), if self.disabled {
                Color::Gray(0x88)
            } else {
                Color::Gray(0)
            })
        }
    }
}

/// A second finger that goes down on an enabled button brings it back to the state
/// it had before the first.
pub proof fn law_second_touch_restores(b: ToggleButtonModel, first: Event, second: Event)
    requires
        !b.disabled,
        first matches Event::Device(DeviceEvent::Finger { status: FingerStatus::Down, position, .. })
            && b.rect.spec_includes(position),
        second matches Event::Device(DeviceEvent::Finger { status: FingerStatus::Down, position, .. })
            && b.rect.spec_includes(position),
    ensures
        toggle_outcome(toggle_outcome(b, first).button, second).button == b,
        toggle_outcome(b, first).button.active != b.active,
{
}

/// A tap on a toggle button is consumed; it sends the button's event exactly when the
/// button is enabled, and leaves the button as it is. A tap elsewhere is left alone.
pub proof fn law_tap_sends_the_event(b: ToggleButtonModel, center: crate::geom::Point)
    ensures
        ({
            let o = toggle_outcome(b, Event::Gesture(GestureEvent::Tap(center)));
            &&& o.button == b
            &&& o.handled == b.rect.spec_includes(center)
            &&& o.sent == if b.rect.spec_includes(center) && !b.disabled { Some(b.event) } else { None }
        }),
{
}

/// A disabled toggle button never changes, and never sends anything.
pub proof fn law_disabled_toggle_stays(b: ToggleButtonModel, evt: Event)
    requires
        b.disabled,
    ensures
        toggle_outcome(b, evt).button == b,
        toggle_outcome(b, evt).sent is None,
{
}

/// The colors swap with the state: a pressed button is drawn on black, a released one
/// on white; an enabled one writes in the other of the two, a disabled one in gray.
pub proof fn law_colors_follow_the_state(b: ToggleButtonModel)
    ensures
        toggle_colors(b).0 == if b.active { black() } else { white() },
        !b.disabled ==> toggle_colors(b).1 == if b.active { white() } else { black() },
        b.disabled ==> toggle_colors(b).1 != black() && toggle_colors(b).1 != white(),
{
}

} // verus!
