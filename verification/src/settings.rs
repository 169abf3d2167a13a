//! The settings of the next session, as the events of the settings screen change them.
use vstd::prelude::*;
use crate::text::digit_char;
use crate::view::{EntryId, Event, UpdateMode, ViewId};

verus! {

/// The value of a decimal numeral of digits only.
pub open spec fn digits_value(s: Seq<char>) -> nat
    decreases s.len(),
{
    if s.len() == 0 {
        0
    } else {
        digits_value(s.drop_last()) * 10 + ((s.last() as int - 48) as nat)
    }
}

pub open spec fn is_digit(c: char) -> bool {
    '0' <= c <= '9'
}

/// The digits of a port number: an optional `+` and at least one decimal digit.
pub open spec fn port_digits(s: Seq<char>) -> Seq<char> {
    if s.len() > 0 && s[0] == '+' {
        s.drop_first()
    } else {
        s
    }
}

/// `s` reads as a port number, as `str::parse::<u16>` reads it: an optional `+`, then
/// decimal digits only, at least one, of a value that fits in 16 bits.
pub open spec fn is_port(s: Seq<char>) -> bool {
    let d = port_digits(s);
    &&& d.len() > 0
    &&& forall|i: int| 0 <= i < d.len() ==> is_digit(#[trigger] d[i])
    &&& digits_value(d) <= u16::MAX
}

/// The number that a port text reads as.
pub open spec fn port_value(s: Seq<char>) -> nat {
    digits_value(port_digits(s))
}

proof fn lemma_digits_value_grows(s: Seq<char>, i: int)
    requires
        0 <= i <= s.len(),
        forall|k: int| 0 <= k < s.len() ==> is_digit(#[trigger] s[k]),
    ensures
        digits_value(s.take(i)) <= digits_value(s),
    decreases s.len() - i,
{
    if i < s.len() {
        lemma_digits_value_grows(s, i + 1);
        assert(s.take(i + 1).drop_last() =~= s.take(i));
        assert(s.take(i + 1).last() == s[i]);
    } else {
        assert(s.take(i) =~= s);
    }
}

/// Reads a port number; `None` when the text does not read as one.
pub fn parse_port(text: &str) -> (r: Option<u16>)
    ensures
        match r {
            Some(p) => is_port(text@) && p == port_value(text@),
            None => !is_port(text@),
        },
{
    let n = text.unicode_len();
    let mut i: usize = 0;
    if n > 0 && text.get_char(0) == '+' {
        i = 1;
    }
    let start = i;
    let ghost d = port_digits(text@);
    proof {
        assert(d =~= text@.skip(start as int));
    }
    if start == n {
        proof {
            assert(d.len() == 0);
        }
        return None;
    }
    let mut value: u32 = 0;
    while i < n
        invariant
            n == text@.len(),
            start <= i <= n,
            start < n,
            d =~= text@.skip(start as int),
            d == port_digits(text@),
            forall|k: int| start <= k < i ==> is_digit(#[trigger] text@[k]),
            value == digits_value(d.take(i - start)),
            value <= u16::MAX,
        decreases n - i,
    {
        let c = text.get_char(i);
        if !('0' <= c && c <= '9') {
            proof {
                assert(d[i - start] == c);
                assert(!is_digit(d[i - start]));
            }
            return None;
        }
        let digit = (c as u32) - 48;
        proof {
            assert(d.take(i - start + 1).drop_last() =~= d.take(i - start));
            assert(d.take(i - start + 1).last() == c);
        }
        let next = value * 10 + digit;
        if next > 65535 {
            proof {
                if forall|k: int| 0 <= k < d.len() ==> is_digit(#[trigger] d[k]) {
                    lemma_digits_value_grows(d, i - start + 1);
                }
            }
            return None;
        }
        value = next;
        i = i + 1;
    }
    proof {
        assert(d.take(n - start) =~= d);
        assert forall|k: int| 0 <= k < d.len() implies is_digit(#[trigger] d[k]) by {
            assert(d[k] == text@[start + k]);
        }
    }
    Some(value as u16)
}

/// The settings of the next session.
pub struct SessionSettings {
    pub host: Option<String>,
    pub port: u16,
    pub username: Option<String>,
    pub password: Option<String>,
    pub encoding: bool,
    pub scale: bool,
    pub long_tap: bool,
    pub disable_touch: bool,
    pub panning: bool,
    pub partial_update_mode: UpdateMode,
}

/// What the main loop does after an event of the settings screen.
#[derive(Clone, Copy, Debug, PartialEq, Eq, Structural)]
pub enum SettingsAction {
    /// The settings were updated; nothing else to do.
    Updated,
    /// Turn the screen to this rotation and lay the settings screen out again.
    Rotate(i8),
    /// Leave the client.
    Quit,
    /// Start a session with the current settings.
    Connect,
    /// Turn the wireless network on.
    EnableWifi,
    /// Hand the event to the settings screen.
    Forward,
}

/// How far back from the startup rotation each orientation turns.
pub open spec fn rotation_step(e: EntryId) -> Option<int> {
    match e {
        EntryId::Portrait => Some(0),
        EntryId::IPortrait => Some(2),
        EntryId::Landscape => Some(1),
        EntryId::ILandscape => Some(3),
        _ => None,
    }
}

/// The waveform that a waveform entry selects.
pub open spec fn waveform_of(e: EntryId) -> Option<UpdateMode> {
    match e {
        EntryId::FastA2 => Some(UpdateMode::Fast),
        EntryId::FastMonoA2 => Some(UpdateMode::FastMono),
        EntryId::GuiDU => Some(UpdateMode::Gui),
        EntryId::PartialGL16 => Some(UpdateMode::Partial),
        _ => None,
    }
}

/// The settings of the next session, with their texts as sequences of characters.
pub struct SettingsModel {
    pub host: Option<Seq<char>>,
    pub port: u16,
    pub username: Option<Seq<char>>,
    pub password: Option<Seq<char>>,
    pub encoding: bool,
    pub scale: bool,
    pub long_tap: bool,
    pub disable_touch: bool,
    pub panning: bool,
    pub partial_update_mode: UpdateMode,
}

pub open spec fn opt_text(o: Option<String>) -> Option<Seq<char>> {
    match o {
        Some(s) => Some(s@),
        None => None,
    }
}

impl View for SessionSettings {
    type V = SettingsModel;

    open spec fn view(&self) -> SettingsModel {
        SettingsModel {
            host: opt_text(self.host),
            port: self.port,
            username: opt_text(self.username),
            password: opt_text(self.password),
            encoding: self.encoding,
            scale: self.scale,
            long_tap: self.long_tap,
            disable_touch: self.disable_touch,
            panning: self.panning,
            partial_update_mode: self.partial_update_mode,
        }
    }
}

/// How the main loop answers an event of the settings screen. A non-empty text
/// submitted by a connection field becomes the host, port, user name or password; a
/// toggle flips its setting, or starts the session, or turns the network on; an
/// orientation turns the screen back from the startup rotation; a waveform becomes the
/// one of partial refreshes; going back quits. Other events go to the screen.
pub open spec fn settings_step(s: SettingsModel, evt: Event, startup_rotation: i8) -> (SettingsModel, SettingsAction) {
    match evt {
        Event::Submit(v, text) => {
            if text@.len() == 0 && (v == ViewId::GuiInputField1 || v == ViewId::GuiInputField2
                || v == ViewId::GuiInputField3 || v == ViewId::GuiPasswordField1) {
                (s, SettingsAction::Updated)
            } else if v == ViewId::GuiInputField1 {
                (SettingsModel { host: Some(text@), ..s }, SettingsAction::Updated)
            } else if v == ViewId::GuiInputField2 {
                (SettingsModel { port: port_value(text@) as u16, ..s }, SettingsAction::Updated)
            } else if v == ViewId::GuiInputField3 {
                (SettingsModel { username: Some(text@), ..s }, SettingsAction::Updated)
            } else if v == ViewId::GuiPasswordField1 {
                (SettingsModel { password: Some(text@), ..s }, SettingsAction::Updated)
            } else {
                (s, SettingsAction::Forward)
            }
        },
        Event::Select(e) => {
            if rotation_step(e) is Some {
                (s, SettingsAction::Rotate((startup_rotation - rotation_step(e).unwrap()) as i8))
            } else {
                (SettingsModel { partial_update_mode: waveform_of(e).unwrap(), ..s }, SettingsAction::Updated)
            }
        },
        Event::Toggle(ViewId::Encoding) => (SettingsModel { encoding: !s.encoding, ..s }, SettingsAction::Updated),
        Event::Toggle(ViewId::Scaling) => (SettingsModel { scale: !s.scale, ..s }, SettingsAction::Updated),
        Event::Toggle(ViewId::Long_Tap) => (SettingsModel { long_tap: !s.long_tap, ..s }, SettingsAction::Updated),
        Event::Toggle(ViewId::Touch) => (SettingsModel { disable_touch: !s.disable_touch, ..s }, SettingsAction::Updated),
        Event::Toggle(ViewId::Panning) => (SettingsModel { panning: !s.panning, ..s }, SettingsAction::Updated),
        Event::Toggle(ViewId::Wifi) => (s, SettingsAction::EnableWifi),
        Event::Toggle(ViewId::VNC) => (s, SettingsAction::Connect),
        Event::Back => (s, SettingsAction::Quit),
        _ => (s, SettingsAction::Forward),
    }
}

/// The event can be answered: a submitted port reads as a port number, and the
/// rotations stay within an `i8`.
pub open spec fn settings_step_defined(evt: Event, startup_rotation: i8) -> bool {
    match evt {
        Event::Submit(ViewId::GuiInputField2, text) => text@.len() > 0 ==> is_port(text@),
        Event::Select(e) => rotation_step(e) is Some ==> startup_rotation - rotation_step(e).unwrap() >= i8::MIN,
        _ => true,
    }
}

impl SessionSettings {
    /// Answers an event of the settings screen, as `settings_step` says.
    pub fn apply_event(&mut self, evt: &Event, startup_rotation: i8) -> (a: SettingsAction)
        requires
            settings_step_defined(*evt, startup_rotation),
        ensures
            final(self)@ == settings_step(old(self)@, *evt, startup_rotation).0,
            a == settings_step(old(self)@, *evt, startup_rotation).1,
    {
        match evt {
            Event::Submit(v, text) => {
                let field = match v {
                    ViewId::GuiInputField1 => 1u8,
                    ViewId::GuiInputField2 => 2,
                    ViewId::GuiInputField3 => 3,
                    ViewId::GuiPasswordField1 => 4,
                    _ => 0,
                };
                if field == 0 {
                    return SettingsAction::Forward;
                }
                if text.as_str().is_empty() {
                    return SettingsAction::Updated;
                }
                if field == 1 {
                    self.host = Some(text.clone());
                } else if field == 2 {
                    match parse_port(text.as_str()) {
                        Some(p) => self.port = p,
                        None => {
                            assert(false);
                        },
                    }
                } else if field == 3 {
                    self.username = Some(text.clone());
                } else {
                    self.password = Some(text.clone());
                }
                SettingsAction::Updated
            },
            Event::Select(e) => match e {
                EntryId::Portrait => SettingsAction::Rotate(startup_rotation),
                EntryId::IPortrait => SettingsAction::Rotate(startup_rotation - 2),
                EntryId::Landscape => SettingsAction::Rotate(startup_rotation - 1),
                EntryId::ILandscape => SettingsAction::Rotate(startup_rotation - 3),
                EntryId::FastA2 => {
                    self.partial_update_mode = UpdateMode::Fast;
                    SettingsAction::Updated
                },
                EntryId::FastMonoA2 => {
                    self.partial_update_mode = UpdateMode::FastMono;
                    SettingsAction::Updated
                },
                EntryId::GuiDU => {
                    self.partial_update_mode = UpdateMode::Gui;
                    SettingsAction::Updated
                },
                EntryId::PartialGL16 => {
                    self.partial_update_mode = UpdateMode::Partial;
                    SettingsAction::Updated
                },
            },
            Event::Toggle(ViewId::Encoding) => {
                self.encoding = !self.encoding;
                SettingsAction::Updated
            },
            Event::Toggle(ViewId::Scaling) => {
                self.scale = !self.scale;
                SettingsAction::Updated
            },
            Event::Toggle(ViewId::Long_Tap) => {
                self.long_tap = !self.long_tap;
                SettingsAction::Updated
            },
            Event::Toggle(ViewId::Touch) => {
                self.disable_touch = !self.disable_touch;
                SettingsAction::Updated
            },
            Event::Toggle(ViewId::Panning) => {
                self.panning = !self.panning;
                SettingsAction::Updated
            },
            Event::Toggle(ViewId::Wifi) => SettingsAction::EnableWifi,
            Event::Toggle(ViewId::VNC) => SettingsAction::Connect,
            Event::Back => SettingsAction::Quit,
            _ => SettingsAction::Forward,
        }
    }
}

/// The decimal text of a port reads back as the port: what the settings screen shows
/// in its port field is what a submission of that field sets.
pub proof fn law_port_text_round_trip(port: u16)
    ensures
        is_port(crate::text::decimal_chars(port as nat)),
        port_value(crate::text::decimal_chars(port as nat)) == port,
{
    lemma_decimal_round_trip(port as nat);
}

proof fn lemma_digit_char_value(d: int)
    requires
        0 <= d < 10,
    ensures
        digit_char(d) as int == 48 + d,
        is_digit(digit_char(d)),
{
    assert('0' as int == 48);
    assert('9' as int == 57);
}

proof fn lemma_decimal_round_trip(n: nat)
    ensures
        crate::text::decimal_chars(n).len() > 0,
        forall|i: int| 0 <= i < crate::text::decimal_chars(n).len() ==> is_digit(#[trigger] crate::text::decimal_chars(n)[i]),
        crate::text::decimal_chars(n)[0] != '+',
        digits_value(crate::text::decimal_chars(n)) == n,
    decreases n,
{
    let s = crate::text::decimal_chars(n);
    if n < 10 {
        lemma_digit_char_value(n as int);
        assert(s == seq![digit_char(n as int)]);
        assert(s.drop_last() =~= Seq::<char>::empty());
        assert(digits_value(s.drop_last()) == 0);
        assert(s.last() == digit_char(n as int));
        assert(digits_value(s) == digits_value(s.drop_last()) * 10 + ((s.last() as int - 48) as nat));
    } else {
        lemma_decimal_round_trip(n / 10);
        lemma_digit_char_value((n % 10) as int);
        let t = crate::text::decimal_chars(n / 10);
        assert(s == t.push(digit_char((n % 10) as int)));
        assert(s.drop_last() =~= t);
        assert(s.last() == digit_char((n % 10) as int));
        assert(digits_value(s) == digits_value(t) * 10 + ((s.last() as int - 48) as nat));
        assert((n / 10) * 10 + n % 10 == n) by (nonlinear_arith);
        assert forall|i: int| 0 <= i < s.len() implies is_digit(#[trigger] s[i]) by {
            if i < t.len() {
                assert(s[i] == t[i]);
            }
        }
    }
}

/// Each entry of the waveform menu selects, for the partial refreshes of the next
/// session, the waveform its label names, and nothing else changes: FastA2 the fast
/// (A2) one, FastMonoA2 the fast monochrome one, GuiDU the interface (DU) one,
/// PartialGL16 the partial (GL16) one. Distinct entries thus select distinct waveforms.
pub proof fn law_waveform_entries_select_their_waveform(s: SettingsModel, startup_rotation: i8)
    ensures
        settings_step(s, Event::Select(EntryId::FastA2), startup_rotation) == (
            SettingsModel { partial_update_mode: UpdateMode::Fast, ..s },
            SettingsAction::Updated,
        ),
        settings_step(s, Event::Select(EntryId::FastMonoA2), startup_rotation) == (
            SettingsModel { partial_update_mode: UpdateMode::FastMono, ..s },
            SettingsAction::Updated,
        ),
        settings_step(s, Event::Select(EntryId::GuiDU), startup_rotation) == (
            SettingsModel { partial_update_mode: UpdateMode::Gui, ..s },
            SettingsAction::Updated,
        ),
        settings_step(s, Event::Select(EntryId::PartialGL16), startup_rotation) == (
            SettingsModel { partial_update_mode: UpdateMode::Partial, ..s },
            SettingsAction::Updated,
        ),
{
}

/// Each connection field fills its own setting with the non-empty text submitted, and
/// nothing else: the host field the host, the port field the port it reads as, the user
/// field the user name, the password field the password; an empty text changes nothing.
pub proof fn law_fields_fill_their_own_setting(s: SettingsModel, text: String, startup_rotation: i8)
    ensures
        text@.len() > 0 ==> settings_step(s, Event::Submit(ViewId::GuiInputField1, text), startup_rotation) == (
            SettingsModel { host: Some(text@), ..s },
            SettingsAction::Updated,
        ),
        text@.len() > 0 ==> settings_step(s, Event::Submit(ViewId::GuiInputField2, text), startup_rotation) == (
            SettingsModel { port: port_value(text@) as u16, ..s },
            SettingsAction::Updated,
        ),
        text@.len() > 0 ==> settings_step(s, Event::Submit(ViewId::GuiInputField3, text), startup_rotation) == (
            SettingsModel { username: Some(text@), ..s },
            SettingsAction::Updated,
        ),
        text@.len() > 0 ==> settings_step(s, Event::Submit(ViewId::GuiPasswordField1, text), startup_rotation) == (
            SettingsModel { password: Some(text@), ..s },
            SettingsAction::Updated,
        ),
        text@.len() == 0 ==> settings_step(s, Event::Submit(ViewId::GuiInputField1, text), startup_rotation) == (s, SettingsAction::Updated),
        text@.len() == 0 ==> settings_step(s, Event::Submit(ViewId::GuiInputField2, text), startup_rotation) == (s, SettingsAction::Updated),
        text@.len() == 0 ==> settings_step(s, Event::Submit(ViewId::GuiInputField3, text), startup_rotation) == (s, SettingsAction::Updated),
        text@.len() == 0 ==> settings_step(s, Event::Submit(ViewId::GuiPasswordField1, text), startup_rotation) == (s, SettingsAction::Updated),
{
}

/// Each toggle flips its own setting and nothing else; the connection button starts the
/// session, the network toggle turns the network on, and going back quits, each with
/// the settings as they are.
pub proof fn law_toggles_flip_their_own_setting(s: SettingsModel, startup_rotation: i8)
    ensures
        settings_step(s, Event::Toggle(ViewId::Encoding), startup_rotation) == (SettingsModel { encoding: !s.encoding, ..s }, SettingsAction::Updated),
        settings_step(s, Event::Toggle(ViewId::Scaling), startup_rotation) == (SettingsModel { scale: !s.scale, ..s }, SettingsAction::Updated),
        settings_step(s, Event::Toggle(ViewId::Long_Tap), startup_rotation) == (SettingsModel { long_tap: !s.long_tap, ..s }, SettingsAction::Updated),
        settings_step(s, Event::Toggle(ViewId::Touch), startup_rotation) == (SettingsModel { disable_touch: !s.disable_touch, ..s }, SettingsAction::Updated),
        settings_step(s, Event::Toggle(ViewId::Panning), startup_rotation) == (SettingsModel { panning: !s.panning, ..s }, SettingsAction::Updated),
        settings_step(s, Event::Toggle(ViewId::VNC), startup_rotation) == (s, SettingsAction::Connect),
        settings_step(s, Event::Toggle(ViewId::Wifi), startup_rotation) == (s, SettingsAction::EnableWifi),
        settings_step(s, Event::Back, startup_rotation) == (s, SettingsAction::Quit),
        settings_step(settings_step(s, Event::Toggle(ViewId::Encoding), startup_rotation).0, Event::Toggle(ViewId::Encoding), startup_rotation).0 == s,
{
}

/// An orientation turns the screen back from the startup rotation by its number of
/// quarter turns: portrait not at all, landscape one, inverted portrait two, inverted
/// landscape three; the settings stay as they are.
pub proof fn law_orientations_turn_back_from_startup(s: SettingsModel, startup_rotation: i8)
    requires
        startup_rotation >= i8::MIN + 3,
    ensures
        settings_step(s, Event::Select(EntryId::Portrait), startup_rotation) == (s, SettingsAction::Rotate(startup_rotation)),
        settings_step(s, Event::Select(EntryId::Landscape), startup_rotation) == (s, SettingsAction::Rotate((startup_rotation - 1) as i8)),
        settings_step(s, Event::Select(EntryId::IPortrait), startup_rotation) == (s, SettingsAction::Rotate((startup_rotation - 2) as i8)),
        settings_step(s, Event::Select(EntryId::ILandscape), startup_rotation) == (s, SettingsAction::Rotate((startup_rotation - 3) as i8)),
{
}

} // verus!
