use kobovnc::client::{pixel_format, AuthMethod};
use kobovnc::rfb::{
    auth_methods, encodings_message, EncodingError, pixel_format_message, pointer_message, raw_len, rect_header,
    update_request_message,
};
use kobovnc::session::VncRect;

#[test]
fn offered_security_types_keep_their_order_and_drop_the_unknown() {
    assert_eq!(
        auth_methods(&[30, 5, 2, 1, 19]),
        vec![AuthMethod::AppleRemoteDesktop, AuthMethod::Password, AuthMethod::NoAuth]
    );
    assert!(auth_methods(&[]).is_empty());
}

#[test]
fn rectangle_header_reads_big_endian() {
    let (r, encoding) = rect_header(&[0x01, 0x02, 0, 7, 0x10, 0, 0, 1, 0, 0, 0, 1, 0xAA]);
    assert_eq!(r, VncRect { left: 258, top: 7, width: 4096, height: 1 });
    assert_eq!(encoding, 1);
    let (_, encoding) = rect_header(&[0; 8].iter().chain([0xFF, 0xFF, 0xFE, 0xEC].iter()).copied().collect::<Vec<u8>>());
    assert_eq!(encoding, 0xFFFF_FEEC);
}

#[test]
fn raw_length_counts_pixel_bytes() {
    let r = VncRect { left: 0, top: 0, width: 13, height: 3 };
    assert_eq!(raw_len(r, 4), 156);
    assert_eq!(raw_len(r, 1), 39);
    let big = VncRect { left: 0, top: 0, width: 65535, height: 65535 };
    assert_eq!(raw_len(big, 4), 65535 * 65535 * 4);
}

#[test]
fn client_messages_have_their_bytes() {
    assert_eq!(pointer_message(4, 0x0102, 300), vec![5, 4, 1, 2, 1, 44]);
    assert_eq!(update_request_message(true, 100, 50, 600, 400), vec![3, 1, 0, 100, 0, 50, 2, 88, 1, 144]);
    assert_eq!(update_request_message(false, 0, 0, 1, 2), vec![3, 0, 0, 0, 0, 0, 0, 1, 0, 2]);
    assert_eq!(encodings_message(false), Ok(vec![2, 0, 0, 2, 0, 0, 0, 1, 0, 0, 0, 0]));
}

#[test]
fn the_one_bit_encoding_is_refused() {
    assert_eq!(encodings_message(true), Err(EncodingError::OneBitUnknown));
}

#[test]
fn pixel_format_message_lays_out_the_format() {
    let f = pixel_format(6, 0);
    let m = pixel_format_message(&f);
    assert_eq!(m.len(), 20);
    assert_eq!(&m[..4], &[0, 0, 0, 0]);
    assert_eq!(m[4], f.bits_per_pixel);
    assert_eq!(m[5], f.depth);
    assert_eq!(m[6], f.big_endian as u8);
    assert_eq!(m[7], f.true_colour as u8);
    assert_eq!(&m[8..14], &[(f.red_max >> 8) as u8, f.red_max as u8, (f.green_max >> 8) as u8, f.green_max as u8, (f.blue_max >> 8) as u8, f.blue_max as u8]);
    assert_eq!(&m[14..], &[f.red_shift, f.green_shift, f.blue_shift, 0, 0, 0]);
}
