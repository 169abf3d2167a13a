//! The settings screen: connection fields, buttons and toggles, the console, the menus
//! of orientation and waveform, and the on-screen keyboard.
use vstd::prelude::*;
use std::collections::VecDeque;
use crate::color::{Color, black, white};
use crate::geom::{Dir, Point, Rectangle, div_toward_zero, halves, i32_fits, rect_of};
use crate::gesture::GestureEvent;
use crate::input::{ButtonStatus, DeviceEvent};
use crate::text::{
    decimal_chars, decimal_string, str_or_empty, string_or_empty, text_of_str, text_of_string,
};
use crate::unit::{
    BIG_BAR_HEIGHT, SMALL_BAR_HEIGHT, THICKNESS_MEDIUM, scale_by_dpi, spec_scale_by_dpi,
};
use crate::view::toggle_button::{Toggle_Button, ToggleButtonModel};
use crate::view::{
    Align, Button, EntryId, EntryKind, Event, Filler, Id, IdFeeder, InputField, Keyboard, Menu,
    MenuKind, OutputField, PasswordField, RenderData, UpdateMode, ViewId, Widget, WidgetModel,
};

verus! {

/// The settings screen.
pub struct Gui {
    pub id: Id,
    pub rect: Rectangle,
    pub filled_rect: Rectangle,
    pub children: Vec<Widget>,
    pub focus: Option<ViewId>,
    pub o_menu_rect: Rectangle,
    pub w_menu_rect: Rectangle,
}

/// What the settings screen is.
pub struct GuiModel {
    pub id: Id,
    pub rect: Rectangle,
    pub filled_rect: Rectangle,
    pub children: Seq<WidgetModel>,
    pub focus: Option<ViewId>,
    pub o_menu_rect: Rectangle,
    pub w_menu_rect: Rectangle,
}

impl View for Gui {
    type V = GuiModel;

    open spec fn view(&self) -> GuiModel {
        GuiModel {
            id: self.id,
            rect: self.rect,
            filled_rect: self.filled_rect,
            children: self.children@.map_values(|w: Widget| w@),
            focus: self.focus,
            o_menu_rect: self.o_menu_rect,
            w_menu_rect: self.w_menu_rect,
        }
    }
}

/// The lengths of the layout at a density: the heights of small and big bars, the
/// thickness of a line and its two halves.
pub struct Metrics {
    pub small_height: int,
    pub big_height: int,
    pub thickness: int,
    pub small_thickness: int,
    pub big_thickness: int,
}

pub open spec fn metrics(dpi: int) -> Metrics {
    let thickness = spec_scale_by_dpi(THICKNESS_MEDIUM as int, dpi);
    let small_thickness = div_toward_zero(thickness, 2);
    Metrics {
        small_height: spec_scale_by_dpi(SMALL_BAR_HEIGHT as int, dpi),
        big_height: spec_scale_by_dpi(BIG_BAR_HEIGHT as int, dpi),
        thickness,
        small_thickness,
        big_thickness: thickness - small_thickness,
    }
}

/// The lengths are positive, and a half line is no longer than a small bar.
pub proof fn lemma_metrics_bounds(dpi: int)
    requires
        0 <= dpi <= u16::MAX,
    ensures
        1 <= metrics(dpi).thickness <= metrics(dpi).small_height,
        1 <= metrics(dpi).big_height,
        0 <= metrics(dpi).small_thickness <= metrics(dpi).big_thickness,
        metrics(dpi).small_thickness + metrics(dpi).big_thickness == metrics(dpi).thickness,
        metrics(dpi).small_height <= 30_000,
        metrics(dpi).big_height <= 40_000,
{
    assert((2 * 2 * dpi + 300) / 600 <= (2 * 121 * dpi + 300) / 600) by (nonlinear_arith)
        requires
            dpi >= 0,
    ;
    assert((2 * 121 * dpi + 300) / 600 <= 30_000) by (nonlinear_arith)
        requires
            0 <= dpi <= 65535,
    ;
    assert((2 * 163 * dpi + 300) / 600 <= 40_000) by (nonlinear_arith)
        requires
            0 <= dpi <= 65535,
    ;
}

/// The top of the `k`-th row of the screen: rows follow one another at a pitch of a
/// small bar and a half line.
pub open spec fn row_top(rect: Rectangle, dpi: int, k: int) -> int {
    rect.min.y + k * (metrics(dpi).small_height + metrics(dpi).small_thickness)
}

/// The abscissa that splits the screen in a left and a right column.
pub open spec fn middle(rect: Rectangle) -> int {
    div_toward_zero(rect.max.x as int, 2)
}

/// A cell of row `k`: the left (`left`) or right column, its height a small bar
/// less (`short`) or more a half line.
pub open spec fn cell(rect: Rectangle, dpi: int, k: int, left: bool, short: bool) -> Rectangle {
    let m = metrics(dpi);
    let top = row_top(rect, dpi, k);
    let bottom = if short {
        top + m.small_height - m.small_thickness
    } else {
        top + m.small_height + m.small_thickness
    };
    if left {
        rect_of(rect.min.x as int, top, middle(rect), bottom)
    } else {
        rect_of(middle(rect), top, rect.max.x as int, bottom)
    }
}

/// The widgets of a new settings screen, in order, their identifiers following `first_id`.
pub open spec fn initial_children(
    rect: Rectangle,
    dpi: int,
    first_id: Id,
    host: Seq<char>,
    port: Seq<char>,
    username: Seq<char>,
    password: Seq<char>,
    encoding_enabled: bool,
    scaling_enabled: bool,
    panning: bool,
    disable_touch: bool,
) -> Seq<WidgetModel> {
    let m = metrics(dpi);
    let r0 = row_top(rect, dpi, 0);
    let r1 = row_top(rect, dpi, 1);
    let r2 = row_top(rect, dpi, 2);
    let x0 = rect.min.x as int;
    let x1 = rect.max.x as int;
    let toggle = |k: int, left: bool, n: int, on: bool, event: Event, text: Seq<char>|
        WidgetModel::ToggleButton(
            ToggleButtonModel {
                id: (first_id + n) as Id,
                rect: cell(rect, dpi, k, left, false),
                event,
                text,
                active: on,
                disabled: false,
            },
        );
    seq![
        WidgetModel::Filler { id: (first_id + 1) as Id, rect, color: white() },
        WidgetModel::InputField {
            id: (first_id + 2) as Id,
            rect: cell(rect, dpi, 0, true, true),
            view_id: ViewId::GuiInputField1,
            border: true,
            placeholder: "Enter host IP"@,
            text: host,
        },
        WidgetModel::InputField {
            id: (first_id + 3) as Id,
            rect: cell(rect, dpi, 0, false, true),
            view_id: ViewId::GuiInputField2,
            border: true,
            placeholder: "Enter port"@,
            text: port,
        },
        WidgetModel::Filler {
            id: (first_id + 4) as Id,
            rect: rect_of(x0, r0 + m.small_height - m.small_thickness, x1, r0 + m.small_height + m.small_thickness),
            color: black(),
        },
        WidgetModel::InputField {
            id: (first_id + 5) as Id,
            rect: cell(rect, dpi, 1, true, true),
            view_id: ViewId::GuiInputField3,
            border: true,
            placeholder: "Enter username"@,
            text: username,
        },
        WidgetModel::PasswordField {
            id: (first_id + 6) as Id,
            rect: cell(rect, dpi, 1, false, true),
            view_id: ViewId::GuiPasswordField1,
            border: true,
            placeholder: "Enter password"@,
            text: password,
        },
        WidgetModel::Filler {
            id: (first_id + 7) as Id,
            rect: rect_of(x0, r2, x1, r2 + m.small_height - m.small_thickness),
            color: black(),
        },
        WidgetModel::OutputField {
            id: (first_id + 8) as Id,
            rect: rect_of(x0, r2, x1, r2 + m.small_height + m.small_thickness),
            text: "Console Output"@,
            align: Align::Center,
        },
        WidgetModel::Button {
            id: (first_id + 9) as Id,
            rect: cell(rect, dpi, 3, true, true),
            event: Event::Toggle(ViewId::VNC),
            text: "Start VNC"@,
        },
        WidgetModel::Button {
            id: (first_id + 10) as Id,
            rect: cell(rect, dpi, 3, false, false),
            event: Event::Back,
            text: "Quit"@,
        },
        WidgetModel::Button {
            id: (first_id + 11) as Id,
            rect: cell(rect, dpi, 4, true, false),
            event: Event::Toggle(ViewId::OrientationMenu),
            text: "Orientation"@,
        },
        WidgetModel::Button {
            id: (first_id + 12) as Id,
            rect: cell(rect, dpi, 4, false, false),
            event: Event::Toggle(ViewId::WaveformMenu),
            text: "Waveform Menu"@,
        },
        toggle(5, true, 13, scaling_enabled, Event::Toggle(ViewId::Scaling), "Enable scaling"@),
        toggle(5, false, 14, encoding_enabled, Event::Toggle(ViewId::Encoding), "Custom encoding"@),
        toggle(6, true, 15, disable_touch, Event::Toggle(ViewId::Touch), "Disable Touch"@),
        toggle(6, false, 16, panning, Event::Toggle(ViewId::Panning), "Enable Panning"@),
    ]
}

/// The region of the screen whose tap hides the keyboard: from below the second row
/// of fields to the top of the keyboard.
pub open spec fn filled_rect_of(rect: Rectangle, dpi: int) -> Rectangle {
    let m = metrics(dpi);
    rect_of(
        rect.min.x as int,
        row_top(rect, dpi, 2),
        rect.max.x as int,
        rect.max.y - 3 * m.big_height + 2 * m.big_thickness,
    )
}

/// The coordinates that a new settings screen computes fit in an `i32`.
pub open spec fn layout_fits(rect: Rectangle, dpi: int) -> bool {
    let m = metrics(dpi);
    &&& i32_fits(rect.max.x - rect.min.x)
    &&& i32_fits(row_top(rect, dpi, 7))
    &&& i32_fits(rect.max.y - 3 * m.big_height)
    &&& i32_fits(rect.max.y - 3 * m.big_height + 2 * m.big_thickness)
}

/// The top of the keyboard, three big bars above the bottom of the screen.
pub open spec fn keyboard_top(rect: Rectangle, dpi: int) -> int {
    let m = metrics(dpi);
    rect.max.y - 3 * m.big_height + 2 * m.big_thickness
}

/// Index of the first keyboard among the widgets.
pub open spec fn is_first_keyboard(children: Seq<WidgetModel>, i: int) -> bool {
    &&& 0 <= i < children.len()
    &&& children[i] is Keyboard
    &&& forall|j: int| 0 <= j < i ==> !(#[trigger] children[j] is Keyboard)
}

pub open spec fn locate_keyboard(children: Seq<WidgetModel>) -> Option<int> {
    if exists|i: int| is_first_keyboard(children, i) {
        Some(choose|i: int| is_first_keyboard(children, i))
    } else {
        None
    }
}

/// What a step of the settings screen does: the screen it leaves, the redraws it
/// queues, the events it sends to the main loop, how many identifiers it takes, and
/// whether it consumed the event.
pub struct GuiStep {
    pub gui: GuiModel,
    pub renders: Seq<RenderData>,
    pub sent: Seq<Event>,
    pub ids_used: nat,
    pub handled: bool,
}

pub open spec fn no_step(g: GuiModel, handled: bool) -> GuiStep {
    GuiStep { gui: g, renders: Seq::empty(), sent: Seq::empty(), ids_used: 0, handled }
}

/// `i` is the index of the first widget named `id`.
pub open spec fn is_first_with_view_id(children: Seq<WidgetModel>, id: ViewId, i: int) -> bool {
    &&& 0 <= i < children.len()
    &&& children[i].view_id() == Some(id)
    &&& forall|j: int| 0 <= j < i ==> (#[trigger] children[j]).view_id() != Some(id)
}

/// Index of the first widget named `id`, if there is one.
pub open spec fn locate_by_id(children: Seq<WidgetModel>, id: ViewId) -> Option<int> {
    if exists|i: int| is_first_with_view_id(children, id, i) {
        Some(choose|i: int| is_first_with_view_id(children, id, i))
    } else {
        None
    }
}

/// The widgets hold at most one keyboard, and a keyboard comes right after a black
/// line, its separator.
pub open spec fn keyboard_paired(children: Seq<WidgetModel>) -> bool {
    &&& forall|i: int, j: int|
        0 <= i < children.len() && 0 <= j < children.len() && (#[trigger] children[i] is Keyboard)
            && (#[trigger] children[j] is Keyboard) ==> i == j
    &&& forall|i: int|
        0 <= i < children.len() && (#[trigger] children[i] is Keyboard) ==> i >= 1
            && children[i - 1] is Filler && children[i - 1]->Filler_color == black()
}

/// Showing (`enable`) or hiding the keyboard. Hiding removes the first keyboard and
/// the line above it, redraws what lay under both, and clears the focus of the main
/// loop. Showing adds a line and a keyboard along the bottom of the screen and draws
/// them. Showing a shown keyboard, or hiding a hidden one, does nothing.
pub open spec fn keyboard_step(g: GuiModel, enable: bool, next_id: Id, dpi: int) -> GuiStep {
    match locate_keyboard(g.children) {
        Some(index) => {
            if enable {
                no_step(g, true)
            } else {
                let area = g.children[index].rect().spec_absorb(g.children[index - 1].rect());
                GuiStep {
                    gui: GuiModel {
                        children: g.children.subrange(0, index - 1) + g.children.subrange(
                            index + 1,
                            g.children.len() as int,
                        ),
                        ..g
                    },
                    renders: seq![
                        RenderData { id: None, rect: area, mode: UpdateMode::Gui, wait: true },
                    ],
                    sent: seq![Event::Focus(None)],
                    ids_used: 0,
                    handled: true,
                }
            }
        },
        None => {
            if !enable {
                no_step(g, true)
            } else {
                let top = keyboard_top(g.rect, dpi);
                let kb_rect = rect_of(g.rect.min.x as int, top, g.rect.max.x as int, g.rect.max.y as int);
                let line_rect = rect_of(
                    g.rect.min.x as int,
                    top - metrics(dpi).thickness,
                    g.rect.max.x as int,
                    top,
                );
                let line = WidgetModel::Filler { id: next_id, rect: line_rect, color: black() };
                let kb = WidgetModel::Keyboard { id: (next_id + 1) as Id, rect: kb_rect, number: false };
                GuiStep {
                    gui: GuiModel { children: g.children.push(line).push(kb), ..g },
                    renders: seq![
                        RenderData { id: Some(next_id), rect: line_rect, mode: UpdateMode::Gui, wait: true },
                        RenderData {
                            id: Some((next_id + 1) as Id),
                            rect: kb_rect,
                            mode: UpdateMode::Gui,
                            wait: true,
                        },
                    ],
                    sent: Seq::empty(),
                    ids_used: 2,
                    handled: true,
                }
            }
        },
    }
}

/// The keyboard can be toggled without a computation leaving the range of its type.
pub open spec fn keyboard_step_defined(g: GuiModel, enable: bool, next_id: Id, dpi: int) -> bool {
    match locate_keyboard(g.children) {
        Some(index) => !enable ==> index >= 1,
        None => enable ==> {
            let m = metrics(dpi);
            &&& next_id + 2 <= u64::MAX
            &&& i32_fits(g.rect.max.y - 3 * m.big_height)
            &&& i32_fits(keyboard_top(g.rect, dpi))
            &&& i32_fits(keyboard_top(g.rect, dpi) - m.thickness)
        },
    }
}

/// The entries of the orientation menu.
pub open spec fn orientation_entries() -> Seq<(Seq<char>, EntryId)> {
    seq![
        ("Portrait"@, EntryId::Portrait),
        ("Landscape"@, EntryId::Landscape),
        ("Inverted Portrait"@, EntryId::IPortrait),
        ("Inverted Landscape"@, EntryId::ILandscape),
    ]
}

/// The entries of the waveform menu.
pub open spec fn waveform_entries() -> Seq<(Seq<char>, EntryId)> {
    seq![
        ("FastA2"@, EntryId::FastA2),
        ("FastMonoA2"@, EntryId::FastMonoA2),
        ("GuiDU"@, EntryId::GuiDU),
        ("PartialGL16"@, EntryId::PartialGL16),
    ]
}

/// Opens a drop-down menu anchored to `anchor` and redraws the anchor.
pub open spec fn menu_step(
    g: GuiModel,
    next_id: Id,
    anchor: Rectangle,
    view_id: ViewId,
    entries: Seq<(Seq<char>, EntryId)>,
) -> GuiStep {
    let menu = WidgetModel::Menu {
        id: next_id,
        rect: anchor,
        view_id,
        kind: MenuKind::DropDown,
        entries,
    };
    GuiStep {
        gui: GuiModel { children: g.children.push(menu), ..g },
        renders: seq![RenderData { id: Some(g.id), rect: anchor, mode: UpdateMode::Gui, wait: true }],
        sent: Seq::empty(),
        ids_used: 1,
        handled: true,
    }
}

/// The orientations that the screen forwards to the main loop when one is selected.
pub open spec fn is_orientation(e: EntryId) -> bool {
    e == EntryId::Portrait || e == EntryId::IPortrait || e == EntryId::Landscape || e
        == EntryId::ILandscape
}

/// The fields whose submitted text the screen forwards to the main loop.
pub open spec fn is_connection_field(v: ViewId) -> bool {
    v == ViewId::GuiInputField1 || v == ViewId::GuiInputField2 || v == ViewId::GuiInputField3 || v
        == ViewId::GuiPasswordField1
}

/// How the settings screen answers `evt`:
/// - a tap within the area between the fields and the keyboard hides the keyboard;
/// - the orientation or waveform toggle opens its menu;
/// - a selected orientation is forwarded to the main loop; any other selection is consumed;
/// - a swipe that starts on the screen hides the keyboard when it goes south;
/// - a pressed button of the device, or a cross drawn on the screen, asks to go back;
/// - a non-empty text submitted by a connection field is forwarded;
/// - a change of focus is recorded, and a focused field shows the keyboard.
/// Every other event is left alone.
pub open spec fn gui_step(g: GuiModel, evt: Event, next_id: Id, dpi: int) -> GuiStep {
    match evt {
        Event::Gesture(GestureEvent::Tap(center)) => {
            if g.filled_rect.spec_includes(center) {
                keyboard_step(g, false, next_id, dpi)
            } else {
                no_step(g, false)
            }
        },
        Event::Toggle(ViewId::OrientationMenu) => menu_step(
            g,
            next_id,
            g.o_menu_rect,
            ViewId::OrientationMenu,
            orientation_entries(),
        ),
        Event::Toggle(ViewId::WaveformMenu) => menu_step(
            g,
            next_id,
            g.w_menu_rect,
            ViewId::WaveformMenu,
            waveform_entries(),
        ),
        Event::Select(id) => GuiStep {
            sent: if is_orientation(id) {
                seq![Event::Select(id)]
            } else {
                Seq::empty()
            },
            ..no_step(g, true)
        },
        Event::Gesture(GestureEvent::Swipe { dir, start, .. }) => {
            if g.rect.spec_includes(start) {
                if dir == Dir::South {
                    keyboard_step(g, false, next_id, dpi)
                } else {
                    no_step(g, true)
                }
            } else {
                no_step(g, false)
            }
        },
        Event::Device(DeviceEvent::Button { status: ButtonStatus::Pressed, .. }) => GuiStep {
            sent: seq![Event::Back],
            ..no_step(g, true)
        },
        Event::Submit(v, text) => {
            if is_connection_field(v) {
                GuiStep {
                    sent: if text@.len() > 0 {
                        seq![Event::Submit(v, text)]
                    } else {
                        Seq::empty()
                    },
                    ..no_step(g, true)
                }
            } else {
                no_step(g, false)
            }
        },
        Event::Focus(v) => {
            let g2 = GuiModel { focus: v, ..g };
            if v is Some {
                keyboard_step(g2, true, next_id, dpi)
            } else {
                no_step(g2, true)
            }
        },
        Event::Gesture(GestureEvent::Cross(_)) => GuiStep { sent: seq![Event::Back], ..no_step(g, true) },
        _ => no_step(g, false),
    }
}

/// Answering `evt` stays within the range of every type.
pub open spec fn gui_step_defined(g: GuiModel, evt: Event, next_id: Id, dpi: int) -> bool {
    match evt {
        Event::Gesture(GestureEvent::Tap(center)) => g.filled_rect.spec_includes(center)
            ==> keyboard_step_defined(g, false, next_id, dpi),
        Event::Toggle(ViewId::OrientationMenu) => next_id < u64::MAX,
        Event::Toggle(ViewId::WaveformMenu) => next_id < u64::MAX,
        Event::Gesture(GestureEvent::Swipe { dir, start, .. }) => g.rect.spec_includes(start) && dir
            == Dir::South ==> keyboard_step_defined(g, false, next_id, dpi),
        Event::Focus(v) => v is Some ==> keyboard_step_defined(
            GuiModel { focus: v, ..g },
            true,
            next_id,
            dpi,
        ),
        _ => true,
    }
}

fn menu_entry(label: &str, id: EntryId) -> (e: EntryKind)
    ensures
        crate::view::entry_model(e) == (label@, id),
{
    EntryKind::Command(String::from_str(label), id)
}

fn boxed_toggle(
    rect: Rectangle,
    previous_state: bool,
    event: Event,
    text: &str,
    ids: &mut IdFeeder,
) -> (w: Widget)
    requires
        old(ids)@ < u64::MAX,
    ensures
        w@ == WidgetModel::ToggleButton(
            ToggleButtonModel {
                id: old(ids)@,
                rect,
                event,
                text: text@,
                active: previous_state,
                disabled: false,
            },
        ),
        final(ids)@ == old(ids)@ + 1,
{
    Widget::ToggleButton(Toggle_Button::new(rect, previous_state, event, String::from_str(text), ids))
}

impl Gui {
    /// A new settings screen within `rect`, drawn at the density `dpi`, showing the
    /// connection settings given and the state of the toggles. It takes its own
    /// identifier and one for each widget from `ids`, and asks for a full redraw.
    pub fn new(
        rect: Rectangle,
        ids: &mut IdFeeder,
        rq: &mut Vec<RenderData>,
        host: &Option<&str>,
        port: &u16,
        username: &Option<String>,
        password: &Option<String>,
        encoding_enabled: bool,
        scaling_enabled: bool,
        dpi: u16,
        panning: bool,
        disable_touch: bool,
    ) -> (gui: Gui)
        requires
            layout_fits(rect, dpi as int),
            old(ids)@ + 17 <= u64::MAX,
        ensures
            gui@.id == old(ids)@,
            gui@.rect == rect,
            gui@.children == initial_children(
                rect,
                dpi as int,
                old(ids)@,
                str_or_empty(*host),
                decimal_chars(*port as nat),
                string_or_empty(*username),
                string_or_empty(*password),
                encoding_enabled,
                scaling_enabled,
                panning,
                disable_touch,
            ),
            gui@.filled_rect == filled_rect_of(rect, dpi as int),
            gui@.focus is None,
            gui@.o_menu_rect == cell(rect, dpi as int, 4, true, false),
            gui@.w_menu_rect == cell(rect, dpi as int, 4, false, false),
            final(ids)@ == old(ids)@ + 17,
            final(rq)@ == old(rq)@.push(
                RenderData { id: Some(old(ids)@), rect, mode: UpdateMode::Full, wait: true },
            ),
    {
        let ghost first = ids@;
        let ghost m = metrics(dpi as int);
        proof {
            lemma_metrics_bounds(dpi as int);
        }
        let id = ids.next();
        let mut children: Vec<Widget> = Vec::new();

        let small_height = scale_by_dpi(SMALL_BAR_HEIGHT, dpi) as i32;
        let big_height = scale_by_dpi(BIG_BAR_HEIGHT, dpi) as i32;
        let thickness = scale_by_dpi(THICKNESS_MEDIUM, dpi) as i32;
        let (small_thickness, big_thickness) = halves(thickness);
        let step = small_height + small_thickness;
        assert(row_top(rect, dpi as int, 7) == rect.min.y + 7 * step);
        assert(rect.min.y <= rect.min.y + step <= rect.min.y + 2 * step <= rect.min.y + 3 * step
            <= rect.min.y + 4 * step <= rect.min.y + 5 * step <= rect.min.y + 6 * step
            <= rect.min.y + 7 * step);
        let half_x = rect.max.x / 2;

        // background
        children.push(Widget::Filler(Filler { id: ids.next(), rect: Rectangle::from_coords(rect.min.x, rect.min.y, rect.max.x, rect.max.y), color: Color::Gray(255) }));

        children.push(
            Widget::InputField(
                InputField {
                    id: ids.next(),
                    rect: Rectangle::from_coords(
                        rect.min.x,
                        rect.min.y,
                        half_x,
                        rect.min.y + small_height - small_thickness,
                    ),
                    view_id: ViewId::GuiInputField1,
                    border: true,
                    placeholder: String::from_str("Enter host IP"),
                    text: text_of_str(host),
                },
            ),
        );
        children.push(
            Widget::InputField(
                InputField {
                    id: ids.next(),
                    rect: Rectangle::from_coords(
                        half_x,
                        rect.min.y,
                        rect.max.x,
                        rect.min.y + small_height - small_thickness,
                    ),
                    view_id: ViewId::GuiInputField2,
                    border: true,
                    placeholder: String::from_str("Enter port"),
                    text: decimal_string(*port),
                },
            ),
        );

        let mut row_height = rect.min.y + small_height + small_thickness;

        // separator below the first row
        children.push(
            Widget::Filler(
                Filler {
                    id: ids.next(),
                    rect: Rectangle::from_coords(
                        rect.min.x,
                        rect.min.y + small_height - small_thickness,
                        rect.max.x,
                        rect.min.y + small_height + small_thickness,
                    ),
                    color: Color::Gray(0),
                },
            ),
        );

        children.push(
            Widget::InputField(
                InputField {
                    id: ids.next(),
                    rect: Rectangle::from_coords(
                        rect.min.x,
                        row_height,
                        half_x,
                        row_height + small_height - small_thickness,
                    ),
                    view_id: ViewId::GuiInputField3,
                    border: true,
                    placeholder: String::from_str("Enter username"),
                    text: text_of_string(username),
                },
            ),
        );
        children.push(
            Widget::PasswordField(
                PasswordField {
                    id: ids.next(),
                    rect: Rectangle::from_coords(
                        half_x,
                        row_height,
                        rect.max.x,
                        row_height + small_height - small_thickness,
                    ),
                    view_id: ViewId::GuiPasswordField1,
                    border: true,
                    placeholder: String::from_str("Enter password"),
                    text: text_of_string(password),
                },
            ),
        );

        row_height = row_height + small_height + small_thickness;

        // separator below the second row
        children.push(
            Widget::Filler(
                Filler {
                    id: ids.next(),
                    rect: Rectangle::from_coords(
                        rect.min.x,
                        row_height,
                        rect.max.x,
                        row_height + small_height - small_thickness,
                    ),
                    color: Color::Gray(0),
                },
            ),
        );

        children.push(
            Widget::OutputField(
                OutputField {
                    id: ids.next(),
                    rect: Rectangle::from_coords(
                        rect.min.x,
                        row_height,
                        rect.max.x,
                        row_height + small_height + small_thickness,
                    ),
                    text: String::from_str("Console Output"),
                    align: Align::Center,
                },
            ),
        );

        row_height = row_height + small_height + small_thickness;

        children.push(
            Widget::Button(
                Button {
                    id: ids.next(),
                    rect: Rectangle::from_coords(
                        rect.min.x,
                        row_height,
                        half_x,
                        row_height + small_height - small_thickness,
                    ),
                    event: Event::Toggle(ViewId::VNC),
                    text: String::from_str("Start VNC"),
                },
            ),
        );
        children.push(
            Widget::Button(
                Button {
                    id: ids.next(),
                    rect: Rectangle::from_coords(
                        half_x,
                        row_height,
                        rect.max.x,
                        row_height + small_height + small_thickness,
                    ),
                    event: Event::Back,
                    text: String::from_str("Quit"),
                },
            ),
        );

        row_height = row_height + small_height + small_thickness;

        let o_menu_rect = Rectangle::from_coords(
            rect.min.x,
            row_height,
            half_x,
            row_height + small_height + small_thickness,
        );
        children.push(
            Widget::Button(
                Button {
                    id: ids.next(),
                    rect: o_menu_rect,
                    event: Event::Toggle(ViewId::OrientationMenu),
                    text: String::from_str("Orientation"),
                },
            ),
        );
        let w_menu_rect = Rectangle::from_coords(
            half_x,
            row_height,
            rect.max.x,
            row_height + small_height + small_thickness,
        );
        children.push(
            Widget::Button(
                Button {
                    id: ids.next(),
                    rect: w_menu_rect,
                    event: Event::Toggle(ViewId::WaveformMenu),
                    text: String::from_str("Waveform Menu"),
                },
            ),
        );

        row_height = row_height + small_height + small_thickness;

        children.push(
            boxed_toggle(
                Rectangle::from_coords(rect.min.x, row_height, half_x, row_height + small_height + small_thickness),
                scaling_enabled,
                Event::Toggle(ViewId::Scaling),
                "Enable scaling",
                ids,
            ),
        );
        children.push(
            boxed_toggle(
                Rectangle::from_coords(half_x, row_height, rect.max.x, row_height + small_height + small_thickness),
                encoding_enabled,
                Event::Toggle(ViewId::Encoding),
                "Custom encoding",
                ids,
            ),
        );

        row_height = row_height + small_height + small_thickness;

        children.push(
            boxed_toggle(
                Rectangle::from_coords(rect.min.x, row_height, half_x, row_height + small_height + small_thickness),
                disable_touch,
                Event::Toggle(ViewId::Touch),
                "Disable Touch",
                ids,
            ),
        );
        children.push(
            boxed_toggle(
                Rectangle::from_coords(half_x, row_height, rect.max.x, row_height + small_height + small_thickness),
                panning,
                Event::Toggle(ViewId::Panning),
                "Enable Panning",
                ids,
            ),
        );

        let filled_rect = Rectangle::from_coords(
            rect.min.x,
            rect.min.y + small_height + small_thickness + small_height + small_thickness,
            rect.max.x,
            rect.max.y - 3 * big_height + 2 * big_thickness,
        );

        rq.push(RenderData::new(id, rect, UpdateMode::Full));

        let gui = Gui {
            id,
            rect,
            filled_rect,
            children,
            focus: None,
            o_menu_rect,
            w_menu_rect,
        };
        proof {
            assert(gui@.children =~= initial_children(
                rect,
                dpi as int,
                first,
                str_or_empty(*host),
                decimal_chars(*port as nat),
                string_or_empty(*username),
                string_or_empty(*password),
                encoding_enabled,
                scaling_enabled,
                panning,
                disable_touch,
            ));
        }
        gui
    }

    /// Index of the first keyboard among the widgets, if there is one.
    pub fn locate_keyboard(&self) -> (r: Option<usize>)
        ensures
            match r {
                Some(i) => locate_keyboard(self@.children) == Some(i as int),
                None => locate_keyboard(self@.children) is None,
            },
    {
        let ghost c = self@.children;
        let n = self.children.len();
        let mut i: usize = 0;
        while i < n
            invariant
                n == self.children@.len(),
                c == self@.children,
                0 <= i <= n,
                forall|j: int| 0 <= j < i ==> !(#[trigger] c[j] is Keyboard),
            decreases n - i,
        {
            if self.children[i].is_keyboard() {
                proof {
                    assert(is_first_keyboard(c, i as int));
                    assert forall|k: int| is_first_keyboard(c, k) implies k == i by {
                        if k < i {
                            assert(!(c[k] is Keyboard));
                        } else if k > i {
                            assert(!(c[i as int] is Keyboard));
                        }
                    }
                }
                return Some(i);
            }
            i = i + 1;
        }
        proof {
            assert forall|k: int| !is_first_keyboard(c, k) by {
                if 0 <= k < c.len() {
                    assert(!(c[k] is Keyboard));
                }
            }
        }
        None
    }

    /// Shows (`enable`) or hides the keyboard, as `keyboard_step` says. New widgets
    /// take their identifiers from `ids`; the keyboard is laid out for the density `dpi`.
    pub fn toggle_keyboard(
        &mut self,
        enable: bool,
        _id: Option<ViewId>,
        hub: &mut Vec<Event>,
        rq: &mut Vec<RenderData>,
        ids: &mut IdFeeder,
        dpi: u16,
    )
        requires
            keyboard_step_defined(old(self)@, enable, old(ids)@, dpi as int),
        ensures
            final(self)@ == keyboard_step(old(self)@, enable, old(ids)@, dpi as int).gui,
            final(rq)@ == old(rq)@ + keyboard_step(old(self)@, enable, old(ids)@, dpi as int).renders,
            final(hub)@ == old(hub)@ + keyboard_step(old(self)@, enable, old(ids)@, dpi as int).sent,
            final(ids)@ == old(ids)@ + keyboard_step(
                old(self)@,
                enable,
                old(ids)@,
                dpi as int,
            ).ids_used,
    {
        let ghost g = self@;
        let ghost step = keyboard_step(g, enable, ids@, dpi as int);
        match self.locate_keyboard() {
            Some(index) => {
                if enable {
                    proof {
                        assert(old(rq)@ + Seq::<RenderData>::empty() =~= old(rq)@);
                        assert(old(hub)@ + Seq::<Event>::empty() =~= old(hub)@);
                    }
                    return;
                }
                let mut area = self.children[index].rect();
                let above = self.children[index - 1].rect();
                area.absorb(&above);
                let ghost before = self.children@;
                self.children.remove(index);
                self.children.remove(index - 1);
                rq.push(RenderData::expose(area, UpdateMode::Gui));
                hub.push(Event::Focus(None));
                proof {
                    assert(self.children@ =~= before.remove(index as int).remove(index - 1));
                    assert(self@.children =~= g.children.subrange(0, index - 1)
                        + g.children.subrange(index + 1, g.children.len() as int));
                    assert(self@ == step.gui);
                    assert(rq@ =~= old(rq)@ + step.renders);
                    assert(hub@ =~= old(hub)@ + step.sent);
                }
            },
            None => {
                if !enable {
                    proof {
                        assert(old(rq)@ + Seq::<RenderData>::empty() =~= old(rq)@);
                        assert(old(hub)@ + Seq::<Event>::empty() =~= old(hub)@);
                    }
                    return;
                }
                proof {
                    lemma_metrics_bounds(dpi as int);
                }
                let big_height = scale_by_dpi(BIG_BAR_HEIGHT, dpi) as i32;
                let thickness = scale_by_dpi(THICKNESS_MEDIUM, dpi) as i32;
                let (_small_thickness, big_thickness) = halves(thickness);
                let kb_top = self.rect.max.y - 3 * big_height + 2 * big_thickness;
                let kb_rect = Rectangle::from_coords(self.rect.min.x, kb_top, self.rect.max.x, self.rect.max.y);
                let line_rect = Rectangle::from_coords(self.rect.min.x, kb_top - thickness, self.rect.max.x, kb_top);
                let line_id = ids.next();
                self.children.push(Widget::Filler(Filler { id: line_id, rect: line_rect, color: Color::Gray(0) }));
                let kb_id = ids.next();
                self.children.push(Widget::Keyboard(Keyboard { id: kb_id, rect: kb_rect, number: false }));
                rq.push(RenderData::new(line_id, line_rect, UpdateMode::Gui));
                rq.push(RenderData::new(kb_id, kb_rect, UpdateMode::Gui));
                proof {
                    assert(self@.children =~= step.gui.children);
                    assert(self@ == step.gui);
                    assert(rq@ =~= old(rq)@ + step.renders);
                    assert(hub@ =~= old(hub)@ + step.sent);
                }
            },
        }
    }

    /// Answers `evt` as `gui_step` says. `bus` is left as it is.
    pub fn handle_event(
        &mut self,
        evt: &Event,
        hub: &mut Vec<Event>,
        bus: &mut VecDeque<Event>,
        rq: &mut Vec<RenderData>,
        ids: &mut IdFeeder,
        dpi: u16,
    ) -> (handled: bool)
        requires
            gui_step_defined(old(self)@, *evt, old(ids)@, dpi as int),
        ensures
            final(self)@ == gui_step(old(self)@, *evt, old(ids)@, dpi as int).gui,
            final(rq)@ == old(rq)@ + gui_step(old(self)@, *evt, old(ids)@, dpi as int).renders,
            final(hub)@ == old(hub)@ + gui_step(old(self)@, *evt, old(ids)@, dpi as int).sent,
            final(ids)@ == old(ids)@ + gui_step(old(self)@, *evt, old(ids)@, dpi as int).ids_used,
            handled == gui_step(old(self)@, *evt, old(ids)@, dpi as int).handled,
            final(bus)@ == old(bus)@,
    {
        let ghost g = self@;
        let ghost step = gui_step(g, *evt, ids@, dpi as int);
        match evt {
            Event::Gesture(GestureEvent::Tap(center)) => {
                if self.filled_rect.includes(*center) {
                    let focus = self.focus;
                    self.toggle_keyboard(false, focus, hub, rq, ids, dpi);
                    true
                } else {
                    proof { Self::lemma_nothing_added(*old(rq), *old(hub)); }
                    false
                }
            },
            Event::Toggle(ViewId::OrientationMenu) => {
                let mut entries: Vec<EntryKind> = Vec::new();
                entries.push(menu_entry("Portrait", EntryId::Portrait));
                entries.push(menu_entry("Landscape", EntryId::Landscape));
                entries.push(menu_entry("Inverted Portrait", EntryId::IPortrait));
                entries.push(menu_entry("Inverted Landscape", EntryId::ILandscape));
                let anchor = self.o_menu_rect;
                let menu_id = ids.next();
                self.children.push(Widget::Menu(Menu { id: menu_id, rect: anchor, view_id: ViewId::OrientationMenu, kind: MenuKind::DropDown, entries }));
                rq.push(RenderData::new(self.id, anchor, UpdateMode::Gui));
                proof {
                    let w = self.children@.last();
                    if let Widget::Menu(mm) = w {
                        assert(mm.entries@.map_values(|e: EntryKind| crate::view::entry_model(e)) =~= orientation_entries());
                    }
                    assert(self@.children =~= step.gui.children);
                    assert(rq@ =~= old(rq)@ + step.renders);
                    assert(hub@ =~= old(hub)@ + step.sent);
                }
                true
            },
            Event::Toggle(ViewId::WaveformMenu) => {
                let mut entries: Vec<EntryKind> = Vec::new();
                entries.push(menu_entry("FastA2", EntryId::FastA2));
                entries.push(menu_entry("FastMonoA2", EntryId::FastMonoA2));
                entries.push(menu_entry("GuiDU", EntryId::GuiDU));
                entries.push(menu_entry("PartialGL16", EntryId::PartialGL16));
                let anchor = self.w_menu_rect;
                let menu_id = ids.next();
                self.children.push(Widget::Menu(Menu { id: menu_id, rect: anchor, view_id: ViewId::WaveformMenu, kind: MenuKind::DropDown, entries }));
                rq.push(RenderData::new(self.id, anchor, UpdateMode::Gui));
                proof {
                    let w = self.children@.last();
                    if let Widget::Menu(mm) = w {
                        assert(mm.entries@.map_values(|e: EntryKind| crate::view::entry_model(e)) =~= waveform_entries());
                    }
                    assert(self@.children =~= step.gui.children);
                    assert(rq@ =~= old(rq)@ + step.renders);
                    assert(hub@ =~= old(hub)@ + step.sent);
                }
                true
            },
            Event::Select(id) => {
                match id {
                    EntryId::Portrait => hub.push(Event::Select(EntryId::Portrait)),
                    EntryId::IPortrait => hub.push(Event::Select(EntryId::IPortrait)),
                    EntryId::Landscape => hub.push(Event::Select(EntryId::Landscape)),
                    EntryId::ILandscape => hub.push(Event::Select(EntryId::ILandscape)),
                    _ => {},
                }
                proof {
                    assert(rq@ =~= old(rq)@ + step.renders);
                    assert(hub@ =~= old(hub)@ + step.sent);
                }
                true
            },
            Event::Gesture(GestureEvent::Swipe { dir, start, .. }) => {
                if self.rect.includes(*start) {
                    match dir {
                        Dir::South => {
                            let focus = self.focus;
                            self.toggle_keyboard(false, focus, hub, rq, ids, dpi);
                        },
                        _ => {
                            proof { Self::lemma_nothing_added(*old(rq), *old(hub)); }
                        },
                    }
                    true
                } else {
                    proof { Self::lemma_nothing_added(*old(rq), *old(hub)); }
                    false
                }
            },
            Event::Device(DeviceEvent::Button { status: ButtonStatus::Pressed, .. }) => {
                hub.push(Event::Back);
                proof {
                    assert(rq@ =~= old(rq)@ + step.renders);
                    assert(hub@ =~= old(hub)@ + step.sent);
                }
                true
            },
            Event::Submit(v, text) => {
                let forwarded = match v {
                    ViewId::GuiInputField1 => true,
                    ViewId::GuiInputField2 => true,
                    ViewId::GuiInputField3 => true,
                    ViewId::GuiPasswordField1 => true,
                    _ => false,
                };
                if forwarded {
                    if !text.as_str().is_empty() {
                        hub.push(Event::Submit(*v, text.clone()));
                    }
                    proof {
                        assert(rq@ =~= old(rq)@ + step.renders);
                        assert(hub@ =~= old(hub)@ + step.sent);
                    }
                    true
                } else {
                    proof { Self::lemma_nothing_added(*old(rq), *old(hub)); }
                    false
                }
            },
            Event::Focus(v) => {
                self.focus = *v;
                if v.is_some() {
                    self.toggle_keyboard(true, *v, hub, rq, ids, dpi);
                } else {
                    proof { Self::lemma_nothing_added(*old(rq), *old(hub)); }
                }
                true
            },
            Event::Gesture(GestureEvent::Cross(_)) => {
                hub.push(Event::Back);
                proof {
                    assert(rq@ =~= old(rq)@ + step.renders);
                    assert(hub@ =~= old(hub)@ + step.sent);
                }
                true
            },
            _ => {
                proof { Self::lemma_nothing_added(*old(rq), *old(hub)); }
                false
            },
        }
    }

    proof fn lemma_nothing_added(rq: Vec<RenderData>, hub: Vec<Event>)
        ensures
            rq@ + Seq::<RenderData>::empty() == rq@,
            hub@ + Seq::<Event>::empty() == hub@,
    {
        assert(rq@ + Seq::<RenderData>::empty() =~= rq@);
        assert(hub@ + Seq::<Event>::empty() =~= hub@);
    }

    /// Closes the first widget named `id`: it is removed and the region it covered is
    /// redrawn. Returns whether one was found; when none is, nothing changes.
    pub fn close_child(&mut self, id: ViewId, rq: &mut Vec<RenderData>) -> (closed: bool)
        ensures
            closed == (locate_by_id(old(self)@.children, id) is Some),
            match locate_by_id(old(self)@.children, id) {
                Some(i) => {
                    &&& final(self)@ == GuiModel { children: old(self)@.children.remove(i), ..old(self)@ }
                    &&& final(rq)@ == old(rq)@.push(
                        RenderData {
                            id: None,
                            rect: old(self)@.children[i].rect(),
                            mode: UpdateMode::Gui,
                            wait: true,
                        },
                    )
                },
                None => final(self)@ == old(self)@ && final(rq)@ == old(rq)@,
            },
    {
        let ghost c = self@.children;
        let n = self.children.len();
        let mut i: usize = 0;
        while i < n
            invariant
                n == self.children@.len(),
                self@ == old(self)@,
                c == old(self)@.children,
                rq@ == old(rq)@,
                0 <= i <= n,
                forall|j: int| 0 <= j < i ==> (#[trigger] c[j]).view_id() != Some(id),
            decreases n - i,
        {
            if self.children[i].view_id() == Some(id) {
                let rect = self.children[i].rect();
                rq.push(RenderData::expose(rect, UpdateMode::Gui));
                let ghost before = self.children@;
                self.children.remove(i);
                proof {
                    assert(is_first_with_view_id(c, id, i as int));
                    assert forall|k: int| is_first_with_view_id(c, id, k) implies k == i by {
                        if k < i {
                            assert(c[k].view_id() != Some(id));
                        } else if k > i {
                            assert(c[i as int].view_id() == Some(id));
                        }
                    }
                    assert(self.children@ =~= before.remove(i as int));
                    assert(self@.children =~= c.remove(i as int));
                }
                return true;
            }
            i = i + 1;
        }
        proof {
            assert forall|k: int| !is_first_with_view_id(c, id, k) by {
                if 0 <= k < c.len() {
                    assert(c[k].view_id() != Some(id));
                }
            }
        }
        false
    }

    pub fn id(&self) -> (id: Id)
        ensures
            id == self@.id,
    {
        self.id
    }

    pub fn rect(&self) -> (r: Rectangle)
        ensures
            r == self@.rect,
    {
        self.rect
    }

    /// The settings screen lies under every other view.
    pub fn is_background(&self) -> (b: bool)
        ensures
            b,
    {
        true
    }

    pub fn focus(&self) -> (f: Option<ViewId>)
        ensures
            f == self@.focus,
    {
        self.focus
    }
}

/// Hiding the keyboard undoes showing it: the screen gets back the widgets it had,
/// the region of the keyboard and its line is redrawn, and the focus is cleared.
pub proof fn law_hide_undoes_show(g: GuiModel, next_id: Id, later_id: Id, dpi: int)
    requires
        locate_keyboard(g.children) is None,
    ensures
        ({
            let shown = keyboard_step(g, true, next_id, dpi);
            let hidden = keyboard_step(shown.gui, false, later_id, dpi);
            &&& hidden.gui == g
            &&& hidden.sent == seq![Event::Focus(None)]
            &&& hidden.renders.len() == 1
            &&& hidden.renders[0].id is None
            &&& hidden.renders[0].rect.spec_contains(shown.renders[0].rect)
            &&& hidden.renders[0].rect.spec_contains(shown.renders[1].rect)
        }),
{
    let shown = keyboard_step(g, true, next_id, dpi);
    let c = g.children;
    let n = c.len() as int;
    let c2 = shown.gui.children;
    assert(!exists|i: int| is_first_keyboard(c, i));
    assert forall|j: int| 0 <= j < n implies !(#[trigger] c[j] is Keyboard) by {
        if c[j] is Keyboard {
            lemma_first_of(c, j);
        }
    }
    assert(c2 == c.push(c2[n]).push(c2[n + 1]));
    assert(is_first_keyboard(c2, n + 1));
    assert forall|k: int| is_first_keyboard(c2, k) implies k == n + 1 by {
        if k < n + 1 {
            assert(!(c2[k] is Keyboard));
        }
        if k > n + 1 {
            assert(!(c2[n + 1] is Keyboard));
        }
    }
    assert(locate_keyboard(c2) == Some(n + 1));
    assert(c2.subrange(0, n) + c2.subrange(n + 2, c2.len() as int) =~= c);
}

/// Some keyboard at or before `j` is the first one.
proof fn lemma_first_of(c: Seq<WidgetModel>, j: int)
    requires
        0 <= j < c.len(),
        c[j] is Keyboard,
    ensures
        exists|i: int| is_first_keyboard(c, i),
    decreases j,
{
    if forall|k: int| 0 <= k < j ==> !(#[trigger] c[k] is Keyboard) {
        assert(is_first_keyboard(c, j));
    } else {
        let k = choose|k: int| 0 <= k < j && (#[trigger] c[k] is Keyboard);
        lemma_first_of(c, k);
    }
}

/// The keyboard comes and goes with its separator: where the widgets hold at most one
/// keyboard, right after a black line, the same holds once the keyboard was shown or
/// hidden.
pub proof fn law_keyboard_keeps_its_separator(g: GuiModel, enable: bool, next_id: Id, dpi: int)
    requires
        keyboard_paired(g.children),
    ensures
        keyboard_paired(keyboard_step(g, enable, next_id, dpi).gui.children),
{
    let c = g.children;
    let n = c.len() as int;
    let c2 = keyboard_step(g, enable, next_id, dpi).gui.children;
    match locate_keyboard(c) {
        Some(index) => {
            if !enable {
                assert(is_first_keyboard(c, index));
                assert(c2 == c.subrange(0, index - 1) + c.subrange(index + 1, n));
                assert forall|k: int| 0 <= k < c2.len() implies !(#[trigger] c2[k] is Keyboard) by {
                    if k < index - 1 {
                        assert(c2[k] == c[k]);
                    } else {
                        assert(c2[k] == c[k + 2]);
                    }
                }
            }
        },
        None => {
            if enable {
                assert forall|j: int| 0 <= j < n implies !(#[trigger] c[j] is Keyboard) by {
                    if c[j] is Keyboard {
                        lemma_first_of(c, j);
                    }
                }
                assert(c2 == c.push(c2[n]).push(c2[n + 1]));
                assert forall|k: int| 0 <= k < c2.len() && (#[trigger] c2[k] is Keyboard) implies k == n + 1 by {
                    if k < n {
                        assert(c2[k] == c[k]);
                    }
                }
            }
        },
    }
}

/// What the settings screen sends to the main loop: a selected orientation, and only an
/// orientation; a request to go back for a pressed device button or a cross drawn on the
/// screen; the non-empty text of a connection field. Each of these events is consumed.
pub proof fn law_screen_forwards(g: GuiModel, e: EntryId, v: ViewId, text: String, next_id: Id, dpi: int)
    ensures
        gui_step(g, Event::Select(e), next_id, dpi).sent == if e == EntryId::Portrait || e == EntryId::Landscape
            || e == EntryId::IPortrait || e == EntryId::ILandscape { seq![Event::Select(e)] } else { Seq::empty() },
        gui_step(g, Event::Select(e), next_id, dpi).handled,
        gui_step(g, Event::Select(e), next_id, dpi).gui == g,
        (v == ViewId::GuiInputField1 || v == ViewId::GuiInputField2 || v == ViewId::GuiInputField3 || v
            == ViewId::GuiPasswordField1) ==> gui_step(g, Event::Submit(v, text), next_id, dpi).sent == if text@.len() > 0 {
            seq![Event::Submit(v, text)]
        } else {
            Seq::empty()
        },
        !(v == ViewId::GuiInputField1 || v == ViewId::GuiInputField2 || v == ViewId::GuiInputField3 || v
            == ViewId::GuiPasswordField1) ==> !gui_step(g, Event::Submit(v, text), next_id, dpi).handled,
        forall|code: crate::input::ButtonCode| #[trigger] gui_step(g, Event::Device(DeviceEvent::Button { code, status: ButtonStatus::Pressed }), next_id, dpi).sent == seq![Event::Back],
        forall|p: Point| #[trigger] gui_step(g, Event::Gesture(GestureEvent::Cross(p)), next_id, dpi).sent == seq![Event::Back],
{
}

} // verus!
