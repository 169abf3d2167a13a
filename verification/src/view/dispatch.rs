//! How an event travels through the settings screen: it is offered to the widgets,
//! the last one first, until one consumes it; what the widgets send is offered to the
//! screen, and what the screen leaves goes on to the main loop; then, unless a widget
//! consumed it, the event goes to the screen itself.
use vstd::prelude::*;
use std::collections::VecDeque;
use crate::view::gui::{Gui, GuiModel, gui_step, gui_step_defined};
use crate::view::toggle_button::toggle_outcome;
use crate::geom::Rectangle;
use crate::gesture::GestureEvent;
use crate::view::{Event, Id, IdFeeder, RenderData, Widget, WidgetModel};

verus! {

/// The one-element sequence of what an option holds, or the empty one.
pub open spec fn opt_seq<T>(o: Option<T>) -> Seq<T> {
    match o {
        Some(x) => seq![x],
        None => Seq::empty(),
    }
}

/// What the widgets do with an event: the widgets they leave, the redraws they queue,
/// the events they send, and whether one of them consumed it.
pub struct ChildrenStep {
    pub children: Seq<WidgetModel>,
    pub renders: Seq<RenderData>,
    pub sent: Seq<Event>,
    pub captured: bool,
}

/// Offers `evt` to the widgets before index `i`, the last one first, until one consumes
/// it. A toggle button answers as `toggle_outcome` says; a button consumes a tap
/// within it and sends its event; the other widgets leave it.
pub open spec fn children_step(c: Seq<WidgetModel>, evt: Event, i: int) -> ChildrenStep
    decreases i,
{
    if i <= 0 || i > c.len() {
        ChildrenStep { children: c, renders: Seq::empty(), sent: Seq::empty(), captured: false }
    } else {
        let k = i - 1;
        match c[k] {
            WidgetModel::ToggleButton(b) => {
                let o = toggle_outcome(b, evt);
                let c2 = c.update(k, WidgetModel::ToggleButton(o.button));
                if o.handled {
                    ChildrenStep { children: c2, renders: opt_seq(o.render), sent: opt_seq(o.sent), captured: true }
                } else {
                    let rest = children_step(c2, evt, k);
                    ChildrenStep {
                        children: rest.children,
                        renders: opt_seq(o.render) + rest.renders,
                        sent: opt_seq(o.sent) + rest.sent,
                        captured: rest.captured,
                    }
                }
            },
            WidgetModel::Button { rect, event, .. } => {
                if tap_within(evt, rect) {
                    ChildrenStep { children: c, renders: Seq::empty(), sent: seq![event], captured: true }
                } else {
                    children_step(c, evt, k)
                }
            },
            _ => children_step(c, evt, k),
        }
    }
}

/// `evt` is a tap within `rect`.
pub open spec fn tap_within(evt: Event, rect: Rectangle) -> bool {
    match evt {
        Event::Gesture(GestureEvent::Tap(center)) => rect.spec_includes(center),
        _ => false,
    }
}

/// What the screen does with the events its widgets sent: the screen it leaves, the
/// redraws it queues, the events it sends to the main loop, the widgets' events it did
/// not consume (in order), and how many identifiers it takes.
pub struct BusStep {
    pub gui: GuiModel,
    pub renders: Seq<RenderData>,
    pub sent: Seq<Event>,
    pub kept: Seq<Event>,
    pub ids_used: nat,
}

/// Offers the events `evts` to the screen, in order, as `gui_step` says.
pub open spec fn bus_step(g: GuiModel, evts: Seq<Event>, next_id: int, dpi: int) -> BusStep
    decreases evts.len(),
{
    if evts.len() == 0 {
        BusStep { gui: g, renders: Seq::empty(), sent: Seq::empty(), kept: Seq::empty(), ids_used: 0 }
    } else {
        let st = gui_step(g, evts[0], next_id as Id, dpi);
        let rest = bus_step(st.gui, evts.subrange(1, evts.len() as int), next_id + st.ids_used, dpi);
        BusStep {
            gui: rest.gui,
            renders: st.renders + rest.renders,
            sent: st.sent + rest.sent,
            kept: (if st.handled { Seq::empty() } else { seq![evts[0]] }) + rest.kept,
            ids_used: st.ids_used + rest.ids_used,
        }
    }
}

/// Each of the events `evts` can be answered in turn within the range of every type.
pub open spec fn bus_defined(g: GuiModel, evts: Seq<Event>, next_id: int, dpi: int) -> bool
    decreases evts.len(),
{
    if evts.len() == 0 {
        true
    } else {
        let st = gui_step(g, evts[0], next_id as Id, dpi);
        &&& 0 <= next_id <= u64::MAX
        &&& gui_step_defined(g, evts[0], next_id as Id, dpi)
        &&& bus_defined(st.gui, evts.subrange(1, evts.len() as int), next_id + st.ids_used, dpi)
    }
}

/// What an event does to the settings screen and its widgets: the screen it leaves,
/// the redraws queued, the events sent to the main loop through the hub and through
/// the bus, the identifiers taken, and whether it was consumed.
pub struct DispatchStep {
    pub gui: GuiModel,
    pub renders: Seq<RenderData>,
    pub hub: Seq<Event>,
    pub bus: Seq<Event>,
    pub ids_used: nat,
    pub handled: bool,
}

/// The widgets answer `evt` first (`children_step`); the screen then answers what they
/// sent (`bus_step`), whose unconsumed part goes on the bus; when no widget consumed
/// `evt`, the screen answers it too (`gui_step`).
pub open spec fn dispatch_step(g: GuiModel, evt: Event, next_id: int, dpi: int) -> DispatchStep {
    let cs = children_step(g.children, evt, g.children.len() as int);
    let bs = bus_step(GuiModel { children: cs.children, ..g }, cs.sent, next_id, dpi);
    if cs.captured {
        DispatchStep {
            gui: bs.gui,
            renders: cs.renders + bs.renders,
            hub: bs.sent,
            bus: bs.kept,
            ids_used: bs.ids_used,
            handled: true,
        }
    } else {
        let st = gui_step(bs.gui, evt, (next_id + bs.ids_used) as Id, dpi);
        DispatchStep {
            gui: st.gui,
            renders: cs.renders + bs.renders + st.renders,
            hub: bs.sent + st.sent,
            bus: bs.kept,
            ids_used: bs.ids_used + st.ids_used,
            handled: st.handled,
        }
    }
}

/// Answering `evt` stays within the range of every type.
pub open spec fn dispatch_defined(g: GuiModel, evt: Event, next_id: int, dpi: int) -> bool {
    let cs = children_step(g.children, evt, g.children.len() as int);
    let g1 = GuiModel { children: cs.children, ..g };
    let bs = bus_step(g1, cs.sent, next_id, dpi);
    &&& bus_defined(g1, cs.sent, next_id, dpi)
    &&& !cs.captured ==> gui_step_defined(bs.gui, evt, (next_id + bs.ids_used) as Id, dpi)
}

impl Gui {
    /// Passes `evt` through the screen and its widgets, as `dispatch_step` says.
    pub fn dispatch_event(
        &mut self,
        evt: &Event,
        hub: &mut Vec<Event>,
        bus: &mut VecDeque<Event>,
        rq: &mut Vec<RenderData>,
        ids: &mut IdFeeder,
        dpi: u16,
    ) -> (handled: bool)
        requires
            dispatch_defined(old(self)@, *evt, old(ids)@ as int, dpi as int),
        ensures
            ({
                let d = dispatch_step(old(self)@, *evt, old(ids)@ as int, dpi as int);
                &&& final(self)@ == d.gui
                &&& final(rq)@ == old(rq)@ + d.renders
                &&& final(hub)@ == old(hub)@ + d.hub
                &&& final(bus)@ == old(bus)@ + d.bus
                &&& final(ids)@ == old(ids)@ + d.ids_used
                &&& handled == d.handled
            }),
    {
        let ghost g0 = self@;
        let ghost c0 = self@.children;
        let ghost rq0 = rq@;
        let ghost hub0 = hub@;
        let ghost bus0 = bus@;
        let ghost id0 = ids@ as int;
        let ghost cs = children_step(c0, *evt, c0.len() as int);
        let n = self.children.len();
        let mut child_bus: VecDeque<Event> = VecDeque::new();
        let mut captured = false;
        let mut i: usize = n;
        while i > 0 && !captured
            invariant
                self.children@.len() == n,
                n == c0.len(),
                i <= n,
                self@ == (GuiModel { children: self@.children, ..g0 }),
                hub@ == hub0,
                ids@ == id0,
                captured ==> cs.children == self@.children && rq0 + cs.renders == rq@ && cs.sent
                    == child_bus@ && cs.captured,
                !captured ==> ({
                    let r = children_step(self@.children, *evt, i as int);
                    &&& cs.children == r.children
                    &&& cs.captured == r.captured
                    &&& rq0 + cs.renders == rq@ + r.renders
                    &&& cs.sent == child_bus@ + r.sent
                }),
            decreases i,
        {
            let k = i - 1;
            let ghost cur = self@.children;
            let ghost rq1 = rq@;
            let ghost cb1 = child_bus@;
            let w = self.children.remove(k);
            match w {
                Widget::ToggleButton(mut t) => {
                    let ghost b = t@;
                    let h = t.handle_event(evt, hub, &mut child_bus, rq);
                    self.children.insert(k, Widget::ToggleButton(t));
                    proof {
                        let o = toggle_outcome(b, *evt);
                        let c2 = cur.update(k as int, WidgetModel::ToggleButton(o.button));
                        assert(self@.children =~= c2);
                        assert(cur[k as int] == WidgetModel::ToggleButton(b));
                        let rest = children_step(c2, *evt, k as int);
                        assert(rq@ == rq1 + opt_seq(o.render)) by {
                            if o.render is Some {
                                assert(rq@ =~= rq1 + opt_seq(o.render));
                            } else {
                                assert(rq@ =~= rq1 + opt_seq(o.render));
                            }
                        }
                        assert(child_bus@ == cb1 + opt_seq(o.sent)) by {
                            if o.sent is Some {
                                assert(child_bus@ =~= cb1 + opt_seq(o.sent));
                            } else {
                                assert(child_bus@ =~= cb1 + opt_seq(o.sent));
                            }
                        }
                        if !h {
                            assert(rq1 + (opt_seq(o.render) + rest.renders) =~= rq@ + rest.renders);
                            assert(cb1 + (opt_seq(o.sent) + rest.sent) =~= child_bus@ + rest.sent);
                        }
                    }
                    if h {
                        captured = true;
                    }
                },
                Widget::Button(b) => {
                    let tapped = match evt {
                        Event::Gesture(GestureEvent::Tap(center)) => b.rect.includes(*center),
                        _ => false,
                    };
                    if tapped {
                        child_bus.push_back(b.event.duplicate());
                        captured = true;
                    }
                    self.children.insert(k, Widget::Button(b));
                    proof {
                        assert(self@.children =~= cur);
                        if tapped {
                            assert(child_bus@ =~= cb1 + seq![b.event]);
                        }
                    }
                },
                other => {
                    self.children.insert(k, other);
                    proof {
                        assert(self@.children =~= cur);
                    }
                },
            }
            i = k;
        }
        proof {
            if !captured {
                assert(rq0 + cs.renders == rq@ + Seq::<RenderData>::empty());
                assert(rq@ + Seq::<RenderData>::empty() =~= rq@);
                assert(child_bus@ + Seq::<Event>::empty() =~= child_bus@);
            }
        }
        let ghost g1 = self@;
        let ghost bs = bus_step(g1, cs.sent, id0, dpi as int);
        let ghost rq2 = rq@;
        let mut temp_bus: VecDeque<Event> = VecDeque::new();
        while child_bus.len() > 0
            invariant
                bus_defined(self@, child_bus@, ids@ as int, dpi as int),
                temp_bus@.len() == 0,
                ({
                    let r = bus_step(self@, child_bus@, ids@ as int, dpi as int);
                    &&& bs.gui == r.gui
                    &&& rq2 + bs.renders == rq@ + r.renders
                    &&& hub0 + bs.sent == hub@ + r.sent
                    &&& bus0 + bs.kept == bus@ + r.kept
                    &&& id0 + bs.ids_used == ids@ + r.ids_used
                }),
            decreases child_bus@.len(),
        {
            let ghost before = child_bus@;
            let ghost s0 = self@;
            let ghost rq3 = rq@;
            let ghost hub3 = hub@;
            let ghost bus3 = bus@;
            let ghost ids3 = ids@;
            let e = child_bus.pop_front().unwrap();
            let h = self.handle_event(&e, hub, &mut temp_bus, rq, ids, dpi);
            if !h {
                bus.push_back(e);
            }
            proof {
                let st = gui_step(s0, before[0], ids3, dpi as int);
                let rest = bus_step(st.gui, before.subrange(1, before.len() as int), ids3 + st.ids_used, dpi as int);
                assert(child_bus@ == before.subrange(1, before.len() as int));
                assert(rq3 + (st.renders + rest.renders) =~= rq@ + rest.renders);
                assert(hub3 + (st.sent + rest.sent) =~= hub@ + rest.sent);
                if h {
                    assert(bus3 + (Seq::<Event>::empty() + rest.kept) =~= bus@ + rest.kept);
                } else {
                    assert(bus3 + (seq![before[0]] + rest.kept) =~= bus@ + rest.kept);
                }
            }
        }
        proof {
            assert(rq@ + Seq::<RenderData>::empty() =~= rq@);
            assert(hub@ + Seq::<Event>::empty() =~= hub@);
            assert(bus@ + Seq::<Event>::empty() =~= bus@);
            assert(rq@ == rq0 + cs.renders + bs.renders) by {
                assert(rq0 + cs.renders + bs.renders =~= rq0 + (cs.renders + bs.renders));
            }
        }
        if captured {
            return true;
        }
        let ghost rq4 = rq@;
        let ghost hub4 = hub@;
        let h = self.handle_event(evt, hub, bus, rq, ids, dpi);
        proof {
            assert(rq@ =~= rq0 + (cs.renders + bs.renders + gui_step(bs.gui, *evt, (id0 + bs.ids_used) as Id, dpi as int).renders));
            assert(hub@ =~= hub0 + (bs.sent + gui_step(bs.gui, *evt, (id0 + bs.ids_used) as Id, dpi as int).sent));
        }
        h
    }
}

} // verus!
