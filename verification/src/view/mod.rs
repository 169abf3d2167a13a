//! Views of the settings screen: identifiers, events, render requests, and the
//! widgets that the screen is made of.
use vstd::prelude::*;
use crate::color::Color;
use crate::geom::Rectangle;
use crate::gesture::GestureEvent;
use crate::input::DeviceEvent;
use crate::view::toggle_button::{Toggle_Button, ToggleButtonModel};

pub mod dispatch;
pub mod gui;
pub mod toggle_button;

verus! {

/// Identifier of a view instance.
pub type Id = u64;

/// Hands out view identifiers in increasing order.
pub struct IdFeeder {
    next: Id,
}

impl View for IdFeeder {
    type V = Id;

    closed spec fn view(&self) -> Id {
        self.next
    }
}

impl IdFeeder {
    /// A feeder whose first identifier is `first`.
    pub fn new(first: Id) -> (f: IdFeeder)
        ensures
            f@ == first,
    {
        IdFeeder { next: first }
    }

    /// Hands out the next identifier.
    pub fn next(&mut self) -> (id: Id)
        requires
            old(self)@ < u64::MAX,
        ensures
            id == old(self)@,
            final(self)@ == old(self)@ + 1,
    {
        let id = self.next;
        self.next = self.next + 1;
        id
    }
}

/// Names of the views of the settings screen, and of the settings that they toggle.
#[allow(non_camel_case_types)]
#[derive(Clone, Copy, Debug, PartialEq, Eq, Structural)]
pub enum ViewId {
    GuiInputField1,
    GuiInputField2,
    GuiInputField3,
    GuiPasswordField1,
    VNC,
    OrientationMenu,
    WaveformMenu,
    KeyboardLayoutMenu,
    Scaling,
    Encoding,
    Touch,
    Panning,
    Long_Tap,
    Wifi,
}

/// Entries of the menus.
#[derive(Clone, Copy, Debug, PartialEq, Eq, Structural)]
pub enum EntryId {
    Portrait,
    Landscape,
    IPortrait,
    ILandscape,
    FastA2,
    FastMonoA2,
    GuiDU,
    PartialGL16,
}

/// A menu entry: a command with its label.
#[derive(Clone, Debug)]
pub enum EntryKind {
    Command(String, EntryId),
}

#[derive(Clone, Copy, Debug, PartialEq, Eq, Structural)]
pub enum MenuKind {
    DropDown,
    Contextual,
    SubMenu,
}

/// Horizontal alignment of a text.
#[derive(Clone, Copy, Debug, PartialEq, Eq, Structural)]
pub enum Align {
    Left(i32),
    Right(i32),
    Center,
}

/// The waveform with which the e-ink screen refreshes a region.
#[derive(Clone, Copy, Debug, PartialEq, Eq, Structural)]
pub enum UpdateMode {
    Gui,
    Partial,
    Full,
    Fast,
    FastMono,
}

/// An event that travels between the views and the main loop.
#[derive(Clone, Debug)]
pub enum Event {
    Device(DeviceEvent),
    Gesture(GestureEvent),
    Toggle(ViewId),
    Select(EntryId),
    Submit(ViewId, String),
    Focus(Option<ViewId>),
    Close(ViewId),
    Console(String),
    Back,
}

impl Event {
    /// A copy of the event.
    pub fn duplicate(&self) -> (e: Event)
        ensures
            e == *self,
    {
        match self {
            Event::Device(d) => Event::Device(*d),
            Event::Gesture(g) => Event::Gesture(*g),
            Event::Toggle(v) => Event::Toggle(*v),
            Event::Select(s) => Event::Select(*s),
            Event::Submit(v, t) => Event::Submit(*v, t.clone()),
            Event::Focus(v) => Event::Focus(*v),
            Event::Close(v) => Event::Close(*v),
            Event::Console(t) => Event::Console(t.clone()),
            Event::Back => Event::Back,
        }
    }
}

/// A request to redraw a region of the screen: the view to draw (none for whatever
/// lies under the region), the region, and the waveform.
#[derive(Clone, Copy, Debug, PartialEq, Eq, Structural)]
pub struct RenderData {
    pub id: Option<Id>,
    pub rect: Rectangle,
    pub mode: UpdateMode,
    pub wait: bool,
}

impl RenderData {
    /// A request to redraw the view `id` within `rect`.
    pub fn new(id: Id, rect: Rectangle, mode: UpdateMode) -> (r: RenderData)
        ensures
            r == (RenderData { id: Some(id), rect, mode, wait: true }),
    {
        RenderData { id: Some(id), rect, mode, wait: true }
    }

    /// A request to redraw whatever lies within `rect`, once the view that covered it is gone.
    pub fn expose(rect: Rectangle, mode: UpdateMode) -> (r: RenderData)
        ensures
            r == (RenderData { id: None, rect, mode, wait: true }),
    {
        RenderData { id: None, rect, mode, wait: true }
    }
}

/// A plain colored area.
pub struct Filler {
    pub id: Id,
    pub rect: Rectangle,
    pub color: Color,
}

/// A one-line text field.
pub struct InputField {
    pub id: Id,
    pub rect: Rectangle,
    pub view_id: ViewId,
    pub border: bool,
    pub placeholder: String,
    pub text: String,
}

/// A one-line text field whose text is not shown.
pub struct PasswordField {
    pub id: Id,
    pub rect: Rectangle,
    pub view_id: ViewId,
    pub border: bool,
    pub placeholder: String,
    pub text: String,
}

/// A field that shows messages.
pub struct OutputField {
    pub id: Id,
    pub rect: Rectangle,
    pub text: String,
    pub align: Align,
}

/// A button that sends `event` when tapped.
pub struct Button {
    pub id: Id,
    pub rect: Rectangle,
    pub event: Event,
    pub text: String,
}

/// The on-screen keyboard.
pub struct Keyboard {
    pub id: Id,
    pub rect: Rectangle,
    pub number: bool,
}

/// A menu anchored to a rectangle.
pub struct Menu {
    pub id: Id,
    pub rect: Rectangle,
    pub view_id: ViewId,
    pub kind: MenuKind,
    pub entries: Vec<EntryKind>,
}

/// The widgets that the settings screen holds.
pub enum Widget {
    Filler(Filler),
    InputField(InputField),
    PasswordField(PasswordField),
    OutputField(OutputField),
    Button(Button),
    ToggleButton(Toggle_Button),
    Keyboard(Keyboard),
    Menu(Menu),
}

/// What a widget is, with its texts as sequences of characters.
pub enum WidgetModel {
    Filler { id: Id, rect: Rectangle, color: Color },
    InputField {
        id: Id,
        rect: Rectangle,
        view_id: ViewId,
        border: bool,
        placeholder: Seq<char>,
        text: Seq<char>,
    },
    PasswordField {
        id: Id,
        rect: Rectangle,
        view_id: ViewId,
        border: bool,
        placeholder: Seq<char>,
        text: Seq<char>,
    },
    OutputField { id: Id, rect: Rectangle, text: Seq<char>, align: Align },
    Button { id: Id, rect: Rectangle, event: Event, text: Seq<char> },
    ToggleButton(ToggleButtonModel),
    Keyboard { id: Id, rect: Rectangle, number: bool },
    Menu {
        id: Id,
        rect: Rectangle,
        view_id: ViewId,
        kind: MenuKind,
        entries: Seq<(Seq<char>, EntryId)>,
    },
}

impl WidgetModel {
    pub open spec fn id(self) -> Id {
        match self {
            WidgetModel::Filler { id, .. } => id,
            WidgetModel::InputField { id, .. } => id,
            WidgetModel::PasswordField { id, .. } => id,
            WidgetModel::OutputField { id, .. } => id,
            WidgetModel::Button { id, .. } => id,
            WidgetModel::ToggleButton(t) => t.id,
            WidgetModel::Keyboard { id, .. } => id,
            WidgetModel::Menu { id, .. } => id,
        }
    }

    pub open spec fn rect(self) -> Rectangle {
        match self {
            WidgetModel::Filler { rect, .. } => rect,
            WidgetModel::InputField { rect, .. } => rect,
            WidgetModel::PasswordField { rect, .. } => rect,
            WidgetModel::OutputField { rect, .. } => rect,
            WidgetModel::Button { rect, .. } => rect,
            WidgetModel::ToggleButton(t) => t.rect,
            WidgetModel::Keyboard { rect, .. } => rect,
            WidgetModel::Menu { rect, .. } => rect,
        }
    }

    /// The name by which the main loop finds the widget, for the widgets that have one.
    pub open spec fn view_id(self) -> Option<ViewId> {
        match self {
            WidgetModel::InputField { view_id, .. } => Some(view_id),
            WidgetModel::PasswordField { view_id, .. } => Some(view_id),
            WidgetModel::Menu { view_id, .. } => Some(view_id),
            _ => None,
        }
    }
}

/// The label and identifier of a menu entry.
pub open spec fn entry_model(e: EntryKind) -> (Seq<char>, EntryId) {
    match e {
        EntryKind::Command(label, id) => (label@, id),
    }
}

impl View for Widget {
    type V = WidgetModel;

    open spec fn view(&self) -> WidgetModel {
        match self {
            Widget::Filler(f) => WidgetModel::Filler { id: f.id, rect: f.rect, color: f.color },
            Widget::InputField(f) => WidgetModel::InputField {
                id: f.id,
                rect: f.rect,
                view_id: f.view_id,
                border: f.border,
                placeholder: f.placeholder@,
                text: f.text@,
            },
            Widget::PasswordField(f) => WidgetModel::PasswordField {
                id: f.id,
                rect: f.rect,
                view_id: f.view_id,
                border: f.border,
                placeholder: f.placeholder@,
                text: f.text@,
            },
            Widget::OutputField(f) => WidgetModel::OutputField {
                id: f.id,
                rect: f.rect,
                text: f.text@,
                align: f.align,
            },
            Widget::Button(b) => WidgetModel::Button {
                id: b.id,
                rect: b.rect,
                event: b.event,
                text: b.text@,
            },
            Widget::ToggleButton(t) => WidgetModel::ToggleButton(t@),
            Widget::Keyboard(k) => WidgetModel::Keyboard { id: k.id, rect: k.rect, number: k.number },
            Widget::Menu(m) => WidgetModel::Menu {
                id: m.id,
                rect: m.rect,
                view_id: m.view_id,
                kind: m.kind,
                entries: m.entries@.map_values(|e: EntryKind| entry_model(e)),
            },
        }
    }
}

impl Widget {
    pub fn id(&self) -> (id: Id)
        ensures
            id == self@.id(),
    {
        match self {
            Widget::Filler(f) => f.id,
            Widget::InputField(f) => f.id,
            Widget::PasswordField(f) => f.id,
            Widget::OutputField(f) => f.id,
            Widget::Button(b) => b.id,
            Widget::ToggleButton(t) => t.id(),
            Widget::Keyboard(k) => k.id,
            Widget::Menu(m) => m.id,
        }
    }

    pub fn rect(&self) -> (r: Rectangle)
        ensures
            r == self@.rect(),
    {
        match self {
            Widget::Filler(f) => f.rect,
            Widget::InputField(f) => f.rect,
            Widget::PasswordField(f) => f.rect,
            Widget::OutputField(f) => f.rect,
            Widget::Button(b) => b.rect,
            Widget::ToggleButton(t) => t.rect(),
            Widget::Keyboard(k) => k.rect,
            Widget::Menu(m) => m.rect,
        }
    }

    pub fn view_id(&self) -> (v: Option<ViewId>)
        ensures
            v == self@.view_id(),
    {
        match self {
            Widget::InputField(f) => Some(f.view_id),
            Widget::PasswordField(f) => Some(f.view_id),
            Widget::Menu(m) => Some(m.view_id),
            _ => None,
        }
    }

    pub fn is_keyboard(&self) -> (b: bool)
        ensures
            b == (self@ is Keyboard),
    {
        match self {
            Widget::Keyboard(_) => true,
            _ => false,
        }
    }
}

} // verus!
