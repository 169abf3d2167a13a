use kobovnc::client::{
    choose_auth, expand_1bpp, expand_1bpp_table, full_update_mode, out_of_view, partial_update_mode,
    password_key, pixel_format, pixel_source, red_index, refresh_action, two_bit_rgb, unscaled_delta_rect,
    update_request, AuthChoice, AuthMethod, PixelFormat, PixelSource, PostProcBin, RefreshAction,
};
use kobovnc::event_handling::VncCommand;
use kobovnc::geom::Rectangle;
use kobovnc::view::UpdateMode;

#[test]
fn red_index_follows_the_framebuffer_and_the_swap() {
    assert_eq!(red_index(16, false), 2);
    assert_eq!(red_index(16, true), 0);
    assert_eq!(red_index(0, false), 0);
}

#[test]
fn pixel_formats_of_the_choices() {
    assert_eq!(
        pixel_format(4, 0),
        PixelFormat {
            bits_per_pixel: 16,
            depth: 16,
            big_endian: false,
            true_colour: true,
            red_max: 31,
            green_max: 63,
            blue_max: 31,
            red_shift: 0,
            green_shift: 5,
            blue_shift: 11,
        }
    );
    let f = pixel_format(3, 2);
    assert_eq!((f.red_max, f.green_max, f.blue_max), (7, 7, 3));
    assert_eq!((f.red_shift, f.green_shift, f.blue_shift), (6, 3, 0));
    let f = pixel_format(6, 0);
    assert_eq!((f.bits_per_pixel, f.depth), (32, 32));
    let f = pixel_format(5, 0);
    assert_eq!((f.bits_per_pixel, f.depth), (32, 24));
    let default = pixel_format(0, 0);
    assert_eq!((default.bits_per_pixel, default.depth, default.red_max), (8, 6, 3));
    assert_eq!(pixel_format(1, 2), pixel_format(9, 2));
    assert_eq!(pixel_format(2, 0).depth, 8);
}

#[test]
fn update_modes_of_the_choices() {
    assert_eq!(full_update_mode(1), UpdateMode::Fast);
    assert_eq!(full_update_mode(4), UpdateMode::Partial);
    assert_eq!(full_update_mode(0), UpdateMode::Full);
    assert_eq!(partial_update_mode(2), UpdateMode::FastMono);
    assert_eq!(partial_update_mode(5), UpdateMode::Full);
    assert_eq!(partial_update_mode(-1), UpdateMode::Partial);
}

#[test]
fn password_key_takes_eight_bytes() {
    assert_eq!(password_key(b"secret"), [b's', b'e', b'c', b'r', b'e', b't', 0, 0]);
    assert_eq!(password_key(b"0123456789"), *b"01234567");
}

#[test]
fn authentication_answers() {
    let user = Some("me".to_string());
    let pass = Some("pw".to_string());
    match choose_auth(&[AuthMethod::Password, AuthMethod::NoAuth], &user, &pass, b"pw") {
        Some(AuthChoice::Password(k)) => assert_eq!(k, [b'p', b'w', 0, 0, 0, 0, 0, 0]),
        _ => panic!("password"),
    }
    assert!(choose_auth(&[AuthMethod::Password, AuthMethod::NoAuth], &user, &None, b"").is_none());
    assert!(matches!(
        choose_auth(&[AuthMethod::AppleRemoteDesktop, AuthMethod::NoAuth], &None, &pass, b"pw"),
        Some(AuthChoice::NoAuth)
    ));
    match choose_auth(&[AuthMethod::AppleRemoteDesktop], &user, &pass, b"pw") {
        Some(AuthChoice::AppleRemoteDesktop(u, p)) => assert_eq!((u.as_str(), p.as_str()), ("me", "pw")),
        _ => panic!("ard"),
    }
    assert!(choose_auth(&[], &user, &pass, b"pw").is_none());
}

#[test]
fn update_requests() {
    assert_eq!(
        update_request(true, 5, 6, 1920, 1080, 758, 1024),
        VncCommand::RequestUpdate { left: 0, top: 0, width: 1920, height: 1080 }
    );
    assert_eq!(
        update_request(false, 5, 6, 1920, 1080, 758, 1024),
        VncCommand::RequestUpdate { left: 5, top: 6, width: 758, height: 1024 }
    );
    assert_eq!(
        update_request(false, 0, 0, 600, 800, 758, 1024),
        VncCommand::RequestUpdate { left: 0, top: 0, width: 600, height: 800 }
    );
}

#[test]
fn one_bit_expansion() {
    assert_eq!(expand_1bpp(0b1010_0001), [0xFF, 0, 0xFF, 0, 0, 0, 0, 0xFF]);
    let t = expand_1bpp_table();
    assert_eq!(t.len(), 256);
    assert_eq!(t[0], [0; 8]);
    assert_eq!(t[255], [0xFF; 8]);
    assert_eq!(t[0x80], [0xFF, 0, 0, 0, 0, 0, 0, 0]);
}

#[test]
fn two_bit_colors() {
    // RGB222 keeps red at bits 2-3, green at 4-5, blue at 6-7
    assert_eq!(two_bit_rgb(0b11_10_01_00, 1), (85, 170, 255));
    // the default keeps them at bits 0-1, 2-3 and 4-5
    assert_eq!(two_bit_rgb(0b00_10_01_11, 0), (255, 85, 170));
}

#[test]
fn post_processing_table() {
    let b = PostProcBin::identity(200);
    assert_eq!(b.lookup(0), 0);
    assert_eq!(b.lookup(200), 200);
    assert_eq!(b.lookup(201), 255);
    let levels: Vec<u8> = (0..=255u16).map(|i| (255 - i) as u8).collect();
    let b = PostProcBin::new(&levels, 100);
    assert_eq!(b.lookup(0), 255);
    assert_eq!(b.lookup(200), 55);
    assert_eq!(b.lookup(150), 255);
}

#[test]
fn refresh_decisions() {
    assert_eq!(refresh_action(10, 33, 4, 500), (RefreshAction::Sleep(23), 4));
    assert_eq!(refresh_action(40, 33, 4, 500), (RefreshAction::Partial, 5));
    assert_eq!(refresh_action(40, 33, 501, 500), (RefreshAction::Full, 0));
    assert_eq!(refresh_action(33, 33, 500, 500), (RefreshAction::Partial, 501));
}

#[test]
fn rectangles_out_of_view() {
    // 1920 x 1080 remote screen, 758 x 1024 device, view at (500, 0)
    assert!(out_of_view(0, 0, 100, 100, 1920, 1080, 758, 1024, 500, 0));
    assert!(!out_of_view(450, 0, 100, 100, 1920, 1080, 758, 1024, 500, 0));
    assert!(out_of_view(1300, 0, 100, 100, 1920, 1080, 758, 1024, 500, 0));
    assert!(!out_of_view(0, 0, 10, 10, 600, 800, 758, 1024, 500, 0));
}

#[test]
fn delta_rectangle_of_an_unscaled_draw() {
    assert_eq!(
        unscaled_delta_rect(100, 50, 20, 10, 5, 7, 30, 40, 0, 0, 0, 0),
        Rectangle::from_coords(75, 17, 95, 27)
    );
    assert_eq!(
        unscaled_delta_rect(100, 50, 20, 10, 0, 0, 0, 0, 2, 3, 15, 8),
        Rectangle::from_coords(102, 53, 115, 58)
    );
}

#[test]
fn mono_row_expands_every_byte_when_not_cropped() {
    let pixels = [0b1000_0001u8, 0xFF, 0x0F];
    let mut buf = [7u8; 2048];
    let (mut left_cut, mut right_cut) = (5u32, 6u32);
    kobovnc::client::expand_mono_row(&pixels, 0, 3, 0, false, 0, 758, &mut buf, &mut left_cut, &mut right_cut);
    assert_eq!(&buf[0..8], &[0xFF, 0, 0, 0, 0, 0, 0, 0xFF]);
    assert_eq!(&buf[8..16], &[0xFF; 8]);
    assert_eq!(&buf[16..24], &[0, 0, 0, 0, 0xFF, 0xFF, 0xFF, 0xFF]);
    assert_eq!(buf[24], 7);
    assert_eq!((left_cut, right_cut), (5, 6));
}

#[test]
fn mono_row_skips_and_stops_at_the_view() {
    // the view is 8 pixels wide and starts at pixel 8: only the second byte is in view
    let pixels = [0u8, 0xAA, 0xFF, 0x00, 0x00, 0x00];
    let mut buf = [7u8; 2048];
    let (mut left_cut, mut right_cut) = (0u32, 0u32);
    // second row of a 3-byte-wide rectangle
    kobovnc::client::expand_mono_row(&pixels, 1, 3, 0, true, 8, 8, &mut buf, &mut left_cut, &mut right_cut);
    assert_eq!(&buf[0..8], &[7; 8]);
    assert_eq!(&buf[8..16], &[0; 8]);
    assert_eq!(&buf[16..24], &[7; 8]);
    assert_eq!((left_cut, right_cut), (1, 2));
}

#[test]
fn pixel_sources_of_the_formats() {
    let rgba = [10u8, 20, 30, 0, 40, 50, 60, 0];
    assert_eq!(pixel_source(&rgba, 1, 4, 6), PixelSource::Levels(40, 50, 60));
    assert_eq!(pixel_source(&rgba, 3, 4, 6), PixelSource::Skip);
    let rgb565 = [0x1F, 0x00, 0xE0, 0x07];
    assert_eq!(pixel_source(&rgb565, 1, 2, 4), PixelSource::Rgb565(0xE0, 0x07));
    let bytes = [0b11_10_01_00u8, 0b0000_0111];
    assert_eq!(pixel_source(&bytes, 0, 1, 1), PixelSource::Levels(85, 170, 255));
    assert_eq!(pixel_source(&bytes, 1, 1, 3), PixelSource::Rgb332(0b0000_0111));
    assert_eq!(pixel_source(&bytes, 1, 1, 0), PixelSource::Levels(255, 85, 0));
}
