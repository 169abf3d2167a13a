//! The bytes of the RFB protocol that a session reads and writes: the security types
//! a server offers, the header of a rectangle of a framebuffer update and the length of
//! its raw pixels, and the messages the client sends. Numbers travel big-endian.
//! Of the encodings, only copies and raw rectangles are asked for.
use vstd::prelude::*;
use crate::client::{AuthMethod, PixelFormat};
use crate::session::VncRect;

verus! {

/// The high byte of `v`.
pub open spec fn hi(v: u16) -> u8 {
    (v / 256) as u8
}

/// The low byte of `v`.
pub open spec fn lo(v: u16) -> u8 {
    (v % 256) as u8
}

/// The 16-bit number of the bytes `b0 b1`, most significant first.
pub open spec fn be16(b0: u8, b1: u8) -> u16 {
    (b0 * 256 + b1) as u16
}

/// The 32-bit number of the bytes `b0 b1 b2 b3`, most significant first.
pub open spec fn be32(b0: u8, b1: u8, b2: u8, b3: u8) -> u32 {
    (((b0 * 256 + b1) * 256 + b2) * 256 + b3) as u32
}

fn split16(v: u16) -> (b: (u8, u8))
    ensures
        b.0 == hi(v),
        b.1 == lo(v),
{
    ((v / 256) as u8, (v % 256) as u8)
}

fn join16(b0: u8, b1: u8) -> (v: u16)
    ensures
        v == be16(b0, b1),
{
    b0 as u16 * 256 + b1 as u16
}

/// The authentication method of a security type: 1 none, 2 a password, 30 Apple
/// Remote Desktop; none for the others.
pub open spec fn spec_auth_method(code: u8) -> Option<AuthMethod> {
    if code == 1 {
        Some(AuthMethod::NoAuth)
    } else if code == 2 {
        Some(AuthMethod::Password)
    } else if code == 30 {
        Some(AuthMethod::AppleRemoteDesktop)
    } else {
        None
    }
}

/// The methods among the security types `codes`, in the order offered, the unknown
/// types left out.
pub open spec fn known_methods(codes: Seq<u8>) -> Seq<AuthMethod>
    decreases codes.len(),
{
    if codes.len() == 0 {
        Seq::empty()
    } else {
        let before = known_methods(codes.drop_last());
        match spec_auth_method(codes.last()) {
            Some(m) => before.push(m),
            None => before,
        }
    }
}

/// Reads the security types a server offers, as `known_methods` says.
pub fn auth_methods(codes: &[u8]) -> (methods: Vec<AuthMethod>)
    ensures
        methods@ == known_methods(codes@),
{
    let mut methods: Vec<AuthMethod> = Vec::new();
    let n = codes.len();
    let mut i: usize = 0;
    while i < n
        invariant
            n == codes@.len(),
            0 <= i <= n,
            methods@ == known_methods(codes@.take(i as int)),
        decreases n - i,
    {
        let code = codes[i];
        proof {
            assert(codes@.take(i + 1).drop_last() =~= codes@.take(i as int));
        }
        if code == 1 {
            methods.push(AuthMethod::NoAuth);
        } else if code == 2 {
            methods.push(AuthMethod::Password);
        } else if code == 30 {
            methods.push(AuthMethod::AppleRemoteDesktop);
        }
        i = i + 1;
    }
    proof {
        assert(codes@.take(n as int) =~= codes@);
    }
    methods
}

/// The header of a rectangle of a framebuffer update: its left, top, width and height,
/// then its encoding.
pub open spec fn spec_rect_header(b: Seq<u8>) -> (VncRect, u32) {
    (
        VncRect {
            left: be16(b[0], b[1]),
            top: be16(b[2], b[3]),
            width: be16(b[4], b[5]),
            height: be16(b[6], b[7]),
        },
        be32(b[8], b[9], b[10], b[11]),
    )
}

/// Reads the header of a rectangle from its first twelve bytes.
pub fn rect_header(b: &[u8]) -> (h: (VncRect, u32))
    requires
        b@.len() >= 12,
    ensures
        h == spec_rect_header(b@),
{
    let r = VncRect {
        left: join16(b[0], b[1]),
        top: join16(b[2], b[3]),
        width: join16(b[4], b[5]),
        height: join16(b[6], b[7]),
    };
    let encoding: u32 = ((b[8] as u32 * 256 + b[9] as u32) * 256 + b[10] as u32) * 256 + b[11] as u32;
    (r, encoding)
}

/// The number of bytes of the raw pixels of `r`: `width * height` pixels of
/// `bytes_per_pixel` bytes.
pub open spec fn spec_raw_len(r: VncRect, bytes_per_pixel: int) -> int {
    r.width * r.height * bytes_per_pixel
}

pub fn raw_len(r: VncRect, bytes_per_pixel: u8) -> (n: u64)
    ensures
        n == spec_raw_len(r, bytes_per_pixel as int),
{
    proof {
        assert(r.width * r.height <= 65535 * 65535) by (nonlinear_arith)
            requires
                r.width <= 65535,
                r.height <= 65535,
        ;
        assert(r.width * r.height * bytes_per_pixel <= 65535 * 65535 * 255) by (nonlinear_arith)
            requires
                r.width * r.height <= 65535 * 65535,
                bytes_per_pixel <= 255,
        ;
    }
    r.width as u64 * r.height as u64 * bytes_per_pixel as u64
}

/// A pointer event: the button mask, then the position.
pub open spec fn spec_pointer_message(buttons: u8, x: u16, y: u16) -> Seq<u8> {
    seq![5u8, buttons, hi(x), lo(x), hi(y), lo(y)]
}

pub fn pointer_message(buttons: u8, x: u16, y: u16) -> (m: Vec<u8>)
    ensures
        m@ == spec_pointer_message(buttons, x, y),
{
    let (x0, x1) = split16(x);
    let (y0, y1) = split16(y);
    let m = vec![5u8, buttons, x0, x1, y0, y1];
    proof {
        assert(m@ =~= spec_pointer_message(buttons, x, y));
    }
    m
}

/// A request for the pixels of a region, incremental or whole.
pub open spec fn spec_update_request_message(incremental: bool, left: u16, top: u16, width: u16, height: u16) -> Seq<u8> {
    seq![
        3u8,
        if incremental { 1u8 } else { 0u8 },
        hi(left),
        lo(left),
        hi(top),
        lo(top),
        hi(width),
        lo(width),
        hi(height),
        lo(height),
    ]
}

pub fn update_request_message(incremental: bool, left: u16, top: u16, width: u16, height: u16) -> (m: Vec<u8>)
    ensures
        m@ == spec_update_request_message(incremental, left, top, width, height),
{
    let (l0, l1) = split16(left);
    let (t0, t1) = split16(top);
    let (w0, w1) = split16(width);
    let (h0, h1) = split16(height);
    let flag: u8 = if incremental {
        1
    } else {
        0
    };
    let m = vec![3u8, flag, l0, l1, t0, t1, w0, w1, h0, h1];
    proof {
        assert(m@ =~= spec_update_request_message(incremental, left, top, width, height));
    }
    m
}

/// The message that asks for pixels in the format `f`.
pub open spec fn spec_pixel_format_message(f: PixelFormat) -> Seq<u8> {
    seq![
        0u8,
        0u8,
        0u8,
        0u8,
        f.bits_per_pixel,
        f.depth,
        if f.big_endian { 1u8 } else { 0u8 },
        if f.true_colour { 1u8 } else { 0u8 },
        hi(f.red_max),
        lo(f.red_max),
        hi(f.green_max),
        lo(f.green_max),
        hi(f.blue_max),
        lo(f.blue_max),
        f.red_shift,
        f.green_shift,
        f.blue_shift,
        0u8,
        0u8,
        0u8,
    ]
}

pub fn pixel_format_message(f: &PixelFormat) -> (m: Vec<u8>)
    ensures
        m@ == spec_pixel_format_message(*f),
{
    let (r0, r1) = split16(f.red_max);
    let (g0, g1) = split16(f.green_max);
    let (b0, b1) = split16(f.blue_max);
    let big: u8 = if f.big_endian {
        1
    } else {
        0
    };
    let tc: u8 = if f.true_colour {
        1
    } else {
        0
    };
    let m = vec![
        0u8,
        0,
        0,
        0,
        f.bits_per_pixel,
        f.depth,
        big,
        tc,
        r0,
        r1,
        g0,
        g1,
        b0,
        b1,
        f.red_shift,
        f.green_shift,
        f.blue_shift,
        0,
        0,
        0,
    ];
    proof {
        assert(m@ =~= spec_pixel_format_message(*f));
    }
    m
}

/// Why the encodings cannot be asked for.
#[derive(Clone, Copy, Debug, PartialEq, Eq, Structural)]
pub enum EncodingError {
    /// The custom 1-bit encoding was asked for: its number belongs to the servers that
    /// offer it, and this client does not know it, so it cannot ask for it.
    OneBitUnknown,
}

/// The message that asks for copies (encoding 1) and raw rectangles (encoding 0), in
/// that order of preference.
pub open spec fn spec_encodings_message() -> Seq<u8> {
    seq![2u8, 0u8, 0u8, 2u8, 0u8, 0u8, 0u8, 1u8, 0u8, 0u8, 0u8, 0u8]
}

/// The message that asks for the encodings of a session: copies and raw rectangles of
/// the pixel format; refused when the custom 1-bit encoding (`one_bit`) is asked for.
pub fn encodings_message(one_bit: bool) -> (r: Result<Vec<u8>, EncodingError>)
    ensures
        match r {
            Ok(m) => !one_bit && m@ == spec_encodings_message(),
            Err(e) => one_bit && e == EncodingError::OneBitUnknown,
        },
{
    if one_bit {
        return Err(EncodingError::OneBitUnknown);
    }
    let m = vec![2u8, 0, 0, 2, 0, 0, 0, 1, 0, 0, 0, 0];
    proof {
        assert(m@ =~= spec_encodings_message());
    }
    Ok(m)
}

/// The two bytes of a 16-bit number read back as that number, and the header of a
/// rectangle read from the bytes of its numbers gives them back.
pub proof fn law_big_endian_round_trip(left: u16, top: u16, width: u16, height: u16, encoding: u32)
    ensures
        be16(hi(left), lo(left)) == left,
        spec_rect_header(
            seq![
                hi(left),
                lo(left),
                hi(top),
                lo(top),
                hi(width),
                lo(width),
                hi(height),
                lo(height),
                (encoding / 0x100_0000) as u8,
                ((encoding / 0x1_0000) % 256) as u8,
                ((encoding / 256) % 256) as u8,
                (encoding % 256) as u8,
            ],
        ) == (VncRect { left, top, width, height }, encoding),
{
}

} // verus!
