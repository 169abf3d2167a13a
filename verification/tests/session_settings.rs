use kobovnc::settings::{parse_port, SessionSettings, SettingsAction};
use kobovnc::view::{EntryId, Event, UpdateMode, ViewId};

fn settings() -> SessionSettings {
    SessionSettings {
        host: None,
        port: 5900,
        username: None,
        password: None,
        encoding: false,
        scale: false,
        long_tap: false,
        disable_touch: false,
        panning: false,
        partial_update_mode: UpdateMode::Partial,
    }
}

#[test]
fn ports_read_as_str_parse_reads_them() {
    assert_eq!(parse_port("5900"), Some(5900));
    assert_eq!(parse_port("+80"), Some(80));
    assert_eq!(parse_port("00080"), Some(80));
    assert_eq!(parse_port("0"), Some(0));
    assert_eq!(parse_port("65535"), Some(65535));
    assert_eq!(parse_port("65536"), None);
    assert_eq!(parse_port("999999x"), None);
    assert_eq!(parse_port(""), None);
    assert_eq!(parse_port("+"), None);
    assert_eq!(parse_port("12a"), None);
    assert_eq!(parse_port("-1"), None);
    for text in ["5900", "+80", "65536", "12a", "", "+"] {
        assert_eq!(parse_port(text), text.parse::<u16>().ok());
    }
}

#[test]
fn submissions_set_the_connection() {
    let mut s = settings();
    assert_eq!(s.apply_event(&Event::Submit(ViewId::GuiInputField1, "10.0.0.2".to_string()), 3), SettingsAction::Updated);
    assert_eq!(s.apply_event(&Event::Submit(ViewId::GuiInputField2, "5901".to_string()), 3), SettingsAction::Updated);
    assert_eq!(s.apply_event(&Event::Submit(ViewId::GuiInputField3, "me".to_string()), 3), SettingsAction::Updated);
    assert_eq!(s.apply_event(&Event::Submit(ViewId::GuiPasswordField1, "pw".to_string()), 3), SettingsAction::Updated);
    assert_eq!(s.host.as_deref(), Some("10.0.0.2"));
    assert_eq!(s.port, 5901);
    assert_eq!(s.username.as_deref(), Some("me"));
    assert_eq!(s.password.as_deref(), Some("pw"));
    // empty submissions change nothing
    assert_eq!(s.apply_event(&Event::Submit(ViewId::GuiInputField1, String::new()), 3), SettingsAction::Updated);
    assert_eq!(s.host.as_deref(), Some("10.0.0.2"));
}

#[test]
fn toggles_flip_their_settings() {
    let mut s = settings();
    for v in [ViewId::Encoding, ViewId::Scaling, ViewId::Long_Tap, ViewId::Touch, ViewId::Panning] {
        assert_eq!(s.apply_event(&Event::Toggle(v), 3), SettingsAction::Updated);
    }
    assert!(s.encoding && s.scale && s.long_tap && s.disable_touch && s.panning);
    s.apply_event(&Event::Toggle(ViewId::Scaling), 3);
    assert!(!s.scale);
    assert_eq!(s.apply_event(&Event::Toggle(ViewId::VNC), 3), SettingsAction::Connect);
    assert_eq!(s.apply_event(&Event::Toggle(ViewId::Wifi), 3), SettingsAction::EnableWifi);
    assert_eq!(s.apply_event(&Event::Back, 3), SettingsAction::Quit);
    assert_eq!(s.apply_event(&Event::Focus(None), 3), SettingsAction::Forward);
}

#[test]
fn orientations_rotate_back_from_the_startup_rotation() {
    let mut s = settings();
    assert_eq!(s.apply_event(&Event::Select(EntryId::Portrait), 3), SettingsAction::Rotate(3));
    assert_eq!(s.apply_event(&Event::Select(EntryId::Landscape), 3), SettingsAction::Rotate(2));
    assert_eq!(s.apply_event(&Event::Select(EntryId::IPortrait), 3), SettingsAction::Rotate(1));
    assert_eq!(s.apply_event(&Event::Select(EntryId::ILandscape), 3), SettingsAction::Rotate(0));
}

#[test]
fn waveforms_set_the_partial_refresh() {
    let mut s = settings();
    s.apply_event(&Event::Select(EntryId::FastA2), 3);
    assert_eq!(s.partial_update_mode, UpdateMode::Fast);
    s.apply_event(&Event::Select(EntryId::GuiDU), 3);
    assert_eq!(s.partial_update_mode, UpdateMode::Gui);
}
