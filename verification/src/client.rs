//! Settings and per-frame decisions of a VNC session: the pixel format to ask for,
//! the authentication to answer with, the regions to request, the post-processing
//! table, the decoding of 1-bit and small-color pixels, and when to refresh the screen.
use vstd::prelude::*;
use crate::event_handling::VncCommand;
use crate::geom::{Rectangle, i32_fits, rect_of};
use crate::view::UpdateMode;

verus! {

/// The format of the pixels that the server sends.
#[derive(Clone, Copy, Debug, PartialEq, Eq, Structural)]
pub struct PixelFormat {
    pub bits_per_pixel: u8,
    pub depth: u8,
    pub big_endian: bool,
    pub true_colour: bool,
    pub red_max: u16,
    pub green_max: u16,
    pub blue_max: u16,
    pub red_shift: u8,
    pub green_shift: u8,
    pub blue_shift: u8,
}

/// Index of the red byte in the device's pixels: 2 when red lies at a non-zero offset
/// and the swap of red and blue is not asked for, else 0.
pub open spec fn spec_red_index(red_offset: u32, invert_red_shift: bool) -> u8 {
    if red_offset > 0 && !invert_red_shift {
        2
    } else {
        0
    }
}

pub fn red_index(red_offset: u32, invert_red_shift: bool) -> (i: u8)
    ensures
        i == spec_red_index(red_offset, invert_red_shift),
{
    if red_offset > 0 && !invert_red_shift {
        2
    } else {
        0
    }
}

/// A true-color little-endian format whose red and blue channels trade places when
/// the device keeps red second (`red_index` not 0).
pub open spec fn format_of(
    bits_per_pixel: u8,
    depth: u8,
    red_max: u16,
    green_max: u16,
    blue_max: u16,
    high_shift: u8,
    green_shift: u8,
    red_index: u8,
) -> PixelFormat {
    PixelFormat {
        bits_per_pixel,
        depth,
        big_endian: false,
        true_colour: true,
        red_max,
        green_max,
        blue_max,
        red_shift: if red_index == 0 {
            0
        } else {
            high_shift
        },
        green_shift,
        blue_shift: if red_index == 0 {
            high_shift
        } else {
            0
        },
    }
}

/// The format asked of the server for the choice given on the command line:
/// 1 RGB222, 2 RGBA2222, 3 RGB332, 4 RGB565, 5 RGB888, 6 RGBA8888; anything else the
/// 6-bit RGB222 default.
pub open spec fn spec_pixel_format(choice: u8, red_index: u8) -> PixelFormat {
    if choice == 2 {
        format_of(8, 8, 3, 3, 3, 4, 2, red_index)
    } else if choice == 3 {
        format_of(8, 8, 7, 7, 3, 6, 3, red_index)
    } else if choice == 4 {
        format_of(16, 16, 31, 63, 31, 11, 5, red_index)
    } else if choice == 5 {
        format_of(32, 24, 255, 255, 255, 16, 8, red_index)
    } else if choice == 6 {
        format_of(32, 32, 255, 255, 255, 16, 8, red_index)
    } else {
        format_of(8, 6, 3, 3, 3, 4, 2, red_index)
    }
}

fn make_format(
    bits_per_pixel: u8,
    depth: u8,
    red_max: u16,
    green_max: u16,
    blue_max: u16,
    high_shift: u8,
    green_shift: u8,
    red_index: u8,
) -> (f: PixelFormat)
    ensures
        f == format_of(bits_per_pixel, depth, red_max, green_max, blue_max, high_shift, green_shift, red_index),
{
    PixelFormat {
        bits_per_pixel,
        depth,
        big_endian: false,
        true_colour: true,
        red_max,
        green_max,
        blue_max,
        red_shift: if red_index == 0 {
            0
        } else {
            high_shift
        },
        green_shift,
        blue_shift: if red_index == 0 {
            high_shift
        } else {
            0
        },
    }
}

pub fn pixel_format(choice: u8, red_index: u8) -> (f: PixelFormat)
    ensures
        f == spec_pixel_format(choice, red_index),
{
    match choice {
        1 => make_format(8, 6, 3, 3, 3, 4, 2, red_index),
        2 => make_format(8, 8, 3, 3, 3, 4, 2, red_index),
        3 => make_format(8, 8, 7, 7, 3, 6, 3, red_index),
        4 => make_format(16, 16, 31, 63, 31, 11, 5, red_index),
        5 => make_format(32, 24, 255, 255, 255, 16, 8, red_index),
        6 => make_format(32, 32, 255, 255, 255, 16, 8, red_index),
        _ => make_format(8, 6, 3, 3, 3, 4, 2, red_index),
    }
}

/// The waveform of a choice on the command line: 1 fast, 2 fast monochrome, 3 the
/// interface's, 4 partial, 5 full; anything else `default`.
pub open spec fn spec_update_mode(choice: i8, default: UpdateMode) -> UpdateMode {
    if choice == 1 {
        UpdateMode::Fast
    } else if choice == 2 {
        UpdateMode::FastMono
    } else if choice == 3 {
        UpdateMode::Gui
    } else if choice == 4 {
        UpdateMode::Partial
    } else if choice == 5 {
        UpdateMode::Full
    } else {
        default
    }
}

/// The waveform of full refreshes; an unknown choice gives a full refresh.
pub fn full_update_mode(choice: i8) -> (m: UpdateMode)
    ensures
        m == spec_update_mode(choice, UpdateMode::Full),
{
    match choice {
        1 => UpdateMode::Fast,
        2 => UpdateMode::FastMono,
        3 => UpdateMode::Gui,
        4 => UpdateMode::Partial,
        _ => UpdateMode::Full,
    }
}

/// The waveform of partial refreshes; an unknown choice gives a partial refresh.
pub fn partial_update_mode(choice: i8) -> (m: UpdateMode)
    ensures
        m == spec_update_mode(choice, UpdateMode::Partial),
{
    match choice {
        1 => UpdateMode::Fast,
        2 => UpdateMode::FastMono,
        3 => UpdateMode::Gui,
        5 => UpdateMode::Full,
        _ => UpdateMode::Partial,
    }
}

/// The ways a server offers to authenticate.
#[derive(Clone, Copy, Debug, PartialEq, Eq, Structural)]
pub enum AuthMethod {
    NoAuth,
    Password,
    AppleRemoteDesktop,
}

/// The answer to the server's offer.
#[derive(Clone, Debug)]
pub enum AuthChoice {
    NoAuth,
    Password([u8; 8]),
    AppleRemoteDesktop(String, String),
}

/// The key of the password method: the first eight bytes of the password, padded with zeros.
pub open spec fn spec_password_key(password: Seq<u8>) -> Seq<u8> {
    Seq::new(8, |i: int| if i < password.len() { password[i] } else { 0u8 })
}

pub fn password_key(password: &[u8]) -> (key: [u8; 8])
    ensures
        key@ == spec_password_key(password@),
{
    let mut key: [u8; 8] = [0u8; 8];
    let n = password.len();
    let mut i: usize = 0;
    while i < n && i < 8
        invariant
            n == password@.len(),
            0 <= i <= 8,
            i <= n,
            key@.len() == 8,
            forall|k: int| 0 <= k < i ==> key@[k] == password@[k],
            forall|k: int| i <= k < 8 ==> key@[k] == 0u8,
        decreases 8 - i,
    {
        key[i] = password[i];
        i = i + 1;
    }
    proof {
        assert(key@ =~= spec_password_key(password@));
    }
    key
}

/// The answer to the methods a server offers, taken in order: no authentication when
/// it is offered; the password, if there is one, when the password method comes first
/// (and nothing when there is none); the user name and password for Apple Remote
/// Desktop when both are given, else the next method. Nothing when no method suits.
pub open spec fn spec_auth_choice(
    methods: Seq<AuthMethod>,
    username: Option<Seq<char>>,
    password: Option<Seq<char>>,
    password_bytes: Seq<u8>,
) -> Option<AuthChoiceModel>
    decreases methods.len(),
{
    if methods.len() == 0 {
        None
    } else {
        match methods[0] {
            AuthMethod::NoAuth => Some(AuthChoiceModel::NoAuth),
            AuthMethod::Password => match password {
                None => None,
                Some(_) => Some(AuthChoiceModel::Password(spec_password_key(password_bytes))),
            },
            AuthMethod::AppleRemoteDesktop => {
                if username is Some && password is Some {
                    Some(AuthChoiceModel::AppleRemoteDesktop(username.unwrap(), password.unwrap()))
                } else {
                    spec_auth_choice(methods.drop_first(), username, password, password_bytes)
                }
            },
        }
    }
}

/// An answer to the server, with its texts as sequences of characters.
pub enum AuthChoiceModel {
    NoAuth,
    Password(Seq<u8>),
    AppleRemoteDesktop(Seq<char>, Seq<char>),
}

pub open spec fn auth_model(c: AuthChoice) -> AuthChoiceModel {
    match c {
        AuthChoice::NoAuth => AuthChoiceModel::NoAuth,
        AuthChoice::Password(k) => AuthChoiceModel::Password(k@),
        AuthChoice::AppleRemoteDesktop(u, p) => AuthChoiceModel::AppleRemoteDesktop(u@, p@),
    }
}

pub open spec fn opt_view(o: Option<String>) -> Option<Seq<char>> {
    match o {
        Some(s) => Some(s@),
        None => None,
    }
}

/// Answers the methods a server offers, as `spec_auth_choice` says. `password_bytes`
/// are the bytes of the password.
pub fn choose_auth(
    methods: &[AuthMethod],
    username: &Option<String>,
    password: &Option<String>,
    password_bytes: &[u8],
) -> (c: Option<AuthChoice>)
    ensures
        match c {
            Some(a) => spec_auth_choice(methods@, opt_view(*username), opt_view(*password), password_bytes@)
                == Some(auth_model(a)),
            None => spec_auth_choice(methods@, opt_view(*username), opt_view(*password), password_bytes@) is None,
        },
{
    let n = methods.len();
    let mut i: usize = 0;
    proof {
        assert(methods@.skip(0) =~= methods@);
    }
    while i < n
        invariant
            n == methods@.len(),
            0 <= i <= n,
            spec_auth_choice(methods@, opt_view(*username), opt_view(*password), password_bytes@)
                == spec_auth_choice(methods@.skip(i as int), opt_view(*username), opt_view(*password), password_bytes@),
        decreases n - i,
    {
        proof {
            assert(methods@.skip(i as int)[0] == methods@[i as int]);
            assert(methods@.skip(i as int).drop_first() =~= methods@.skip(i + 1));
        }
        match methods[i] {
            AuthMethod::NoAuth => {
                return Some(AuthChoice::NoAuth);
            },
            AuthMethod::Password => {
                return match password {
                    None => None,
                    Some(_) => Some(AuthChoice::Password(password_key(password_bytes))),
                };
            },
            AuthMethod::AppleRemoteDesktop => {
                match (username, password) {
                    (Some(u), Some(p)) => {
                        return Some(AuthChoice::AppleRemoteDesktop(u.clone(), p.clone()));
                    },
                    _ => {},
                }
            },
        }
        i = i + 1;
    }
    proof {
        assert(methods@.skip(n as int).len() == 0);
    }
    None
}

/// The region of the remote screen to ask for: all of it when it is scaled to fit;
/// else the view, at the offset, no larger than the device's screen (read as 16 bits).
pub open spec fn spec_update_request(
    scale: bool,
    x_offset: u32,
    y_offset: u32,
    width: u16,
    height: u16,
    fb_width: u32,
    fb_height: u32,
) -> VncCommand {
    if scale {
        VncCommand::RequestUpdate { left: 0, top: 0, width, height }
    } else {
        VncCommand::RequestUpdate {
            left: x_offset as u16,
            top: y_offset as u16,
            width: if width < (fb_width as u16) {
                width
            } else {
                fb_width as u16
            },
            height: if height < (fb_height as u16) {
                height
            } else {
                fb_height as u16
            },
        }
    }
}

pub fn update_request(
    scale: bool,
    x_offset: u32,
    y_offset: u32,
    width: u16,
    height: u16,
    fb_width: u32,
    fb_height: u32,
) -> (c: VncCommand)
    ensures
        c == spec_update_request(scale, x_offset, y_offset, width, height, fb_width, fb_height),
{
    if scale {
        VncCommand::RequestUpdate { left: 0, top: 0, width, height }
    } else {
        VncCommand::RequestUpdate {
            left: 0 + x_offset as u16,
            top: 0 + y_offset as u16,
            width: if width < fb_width as u16 {
                width
            } else {
                fb_width as u16
            },
            height: if height < fb_height as u16 {
                height
            } else {
                fb_height as u16
            },
        }
    }
}

/// The value of bit `bit` (0 the most significant) of `byte`, spread to a whole byte.
pub open spec fn expanded_bit(byte: u8, bit: int) -> u8 {
    if (byte >> ((7 - bit) as u8)) & 1u8 == 1u8 {
        0xFF
    } else {
        0x00
    }
}

/// The eight pixels of a byte of a 1-bit image, most significant bit first, as
/// bytes of 0xFF (set) or 0x00 (clear).
pub fn expand_1bpp(byte: u8) -> (row: [u8; 8])
    ensures
        forall|bit: int| 0 <= bit < 8 ==> #[trigger] row@[bit] == expanded_bit(byte, bit),
{
    let mut row: [u8; 8] = [0u8; 8];
    let mut bit: u8 = 0;
    while bit < 8
        invariant
            0 <= bit <= 8,
            row@.len() == 8,
            forall|k: int| 0 <= k < bit ==> #[trigger] row@[k] == expanded_bit(byte, k),
        decreases 8 - bit,
    {
        row[bit as usize] = if (byte >> (7 - bit)) & 1 == 1 {
            0xFF
        } else {
            0x00
        };
        bit = bit + 1;
    }
    row
}

/// The table of `expand_1bpp` for every byte.
pub fn expand_1bpp_table() -> (t: Vec<[u8; 8]>)
    ensures
        t@.len() == 256,
        forall|b: int, bit: int|
            0 <= b < 256 && 0 <= bit < 8 ==> #[trigger] t@[b]@[bit] == expanded_bit(b as u8, bit),
{
    let mut t: Vec<[u8; 8]> = Vec::new();
    let mut b: u16 = 0;
    while b < 256
        invariant
            0 <= b <= 256,
            t@.len() == b,
            forall|k: int, bit: int|
                0 <= k < b && 0 <= bit < 8 ==> #[trigger] t@[k]@[bit] == expanded_bit(k as u8, bit),
        decreases 256 - b,
    {
        t.push(expand_1bpp(b as u8));
        b = b + 1;
    }
    t
}

/// The gray levels of a pixel of a format of at most one byte whose channels are
/// integers of two bits, spread over 0..=255 in steps of 85. Formats 1 and 2
/// (RGB222, RGBA2222) keep red, green and blue at bits 2, 4 and 6; any other format
/// at bits 0, 2 and 4.
pub open spec fn spec_two_bit_rgb(byte: u8, colour_format: u8) -> (u8, u8, u8) {
    let (rs, gs, bs) = if colour_format == 1 || colour_format == 2 {
        (2u8, 4u8, 6u8)
    } else {
        (0u8, 2u8, 4u8)
    };
    (
        (((byte >> rs) & 3u8) * 85) as u8,
        (((byte >> gs) & 3u8) * 85) as u8,
        (((byte >> bs) & 3u8) * 85) as u8,
    )
}

pub fn two_bit_rgb(byte: u8, colour_format: u8) -> (c: (u8, u8, u8))
    ensures
        c == spec_two_bit_rgb(byte, colour_format),
{
    let (rs, gs, bs): (u8, u8, u8) = if colour_format == 1 || colour_format == 2 {
        (2, 4, 6)
    } else {
        (0, 2, 4)
    };
    let r0 = (byte >> rs) & 3;
    let g0 = (byte >> gs) & 3;
    let b0 = (byte >> bs) & 3;
    assert(r0 <= 3 && g0 <= 3 && b0 <= 3) by (bit_vector)
        requires
            r0 == (byte >> rs) & 3u8,
            g0 == (byte >> gs) & 3u8,
            b0 == (byte >> bs) & 3u8,
    ;
    (r0 * 85, g0 * 85, b0 * 85)
}

/// A table that maps each level of a channel to its level after post-processing.
pub struct PostProcBin {
    data: [u8; 256],
}

impl View for PostProcBin {
    type V = Seq<u8>;

    closed spec fn view(&self) -> Seq<u8> {
        self.data@
    }
}

/// A level above the white cutoff becomes white.
pub open spec fn cut_to_white(level: u8, white_cutoff: u8) -> u8 {
    if level > white_cutoff {
        255
    } else {
        level
    }
}

impl PostProcBin {
    /// The table that maps each level `i` to `levels[i]`, turned white above `white_cutoff`.
    pub fn new(levels: &[u8], white_cutoff: u8) -> (b: PostProcBin)
        requires
            levels@.len() == 256,
        ensures
            b@.len() == 256,
            forall|i: int| 0 <= i < 256 ==> #[trigger] b@[i] == cut_to_white(levels@[i], white_cutoff),
    {
        let mut data: [u8; 256] = [0u8; 256];
        let mut i: usize = 0;
        while i < 256
            invariant
                levels@.len() == 256,
                0 <= i <= 256,
                data@.len() == 256,
                forall|k: int| 0 <= k < i ==> #[trigger] data@[k] == cut_to_white(levels@[k], white_cutoff),
            decreases 256 - i,
        {
            let l = levels[i];
            data[i] = if l > white_cutoff {
                255
            } else {
                l
            };
            i = i + 1;
        }
        PostProcBin { data }
    }

    /// The table without contrast filter: each level kept, turned white above `white_cutoff`.
    pub fn identity(white_cutoff: u8) -> (b: PostProcBin)
        ensures
            b@.len() == 256,
            forall|i: int| 0 <= i < 256 ==> #[trigger] b@[i] == cut_to_white(i as u8, white_cutoff),
    {
        let mut levels: Vec<u8> = Vec::new();
        let mut i: u16 = 0;
        while i < 256
            invariant
                0 <= i <= 256,
                levels@.len() == i,
                forall|k: int| 0 <= k < i ==> #[trigger] levels@[k] == k as u8,
            decreases 256 - i,
        {
            levels.push(i as u8);
            i = i + 1;
        }
        PostProcBin::new(levels.as_slice(), white_cutoff)
    }

    /// The level that `level` becomes.
    pub fn lookup(&self, level: u8) -> (l: u8)
        ensures
            self@.len() == 256,
            l == self@[level as int],
    {
        self.data[level as usize]
    }
}

/// What to do at the end of a pass of the main loop.
#[derive(Clone, Copy, Debug, PartialEq, Eq, Structural)]
pub enum RefreshAction {
    /// Wait this many milliseconds, the rest of the frame.
    Sleep(u64),
    /// Refresh the regions drawn since the last full refresh with the full waveform.
    Full,
    /// Refresh the regions drawn since the last refresh with the partial waveform.
    Partial,
}

/// Within a frame, wait for its end; after it, refresh with the full waveform once
/// more than `max_dirty_refreshes` partial refreshes have been made, else partially.
pub open spec fn spec_refresh_action(elapsed_ms: u64, frame_ms: u64, dirty_update_count: u64, max_dirty_refreshes: u64) -> RefreshAction {
    if elapsed_ms < frame_ms {
        RefreshAction::Sleep((frame_ms - elapsed_ms) as u64)
    } else if dirty_update_count > max_dirty_refreshes {
        RefreshAction::Full
    } else {
        RefreshAction::Partial
    }
}

/// Decides what to do at the end of a pass, and the count of partial refreshes after it.
pub fn refresh_action(
    elapsed_ms: u64,
    frame_ms: u64,
    dirty_update_count: u64,
    max_dirty_refreshes: u64,
) -> (r: (RefreshAction, u64))
    requires
        dirty_update_count < u64::MAX,
    ensures
        r.0 == spec_refresh_action(elapsed_ms, frame_ms, dirty_update_count, max_dirty_refreshes),
        r.1 == match r.0 {
            RefreshAction::Sleep(_) => dirty_update_count,
            RefreshAction::Full => 0,
            RefreshAction::Partial => (dirty_update_count + 1) as u64,
        },
{
    if elapsed_ms < frame_ms {
        (RefreshAction::Sleep(frame_ms - elapsed_ms), dirty_update_count)
    } else if dirty_update_count > max_dirty_refreshes {
        (RefreshAction::Full, 0)
    } else {
        (RefreshAction::Partial, dirty_update_count + 1)
    }
}

/// A rectangle sent by the server, at its own size, lies wholly outside the view:
/// on an axis where the remote screen exceeds the device's, it starts past the view's
/// end or ends before the view's start.
pub open spec fn spec_out_of_view(
    left: u32,
    top: u32,
    w: u32,
    h: u32,
    width: u16,
    height: u16,
    fb_width: u32,
    fb_height: u32,
    x_offset: u32,
    y_offset: u32,
) -> bool {
    ||| (height > (fb_height as u16) && (top > fb_height + y_offset || top + h < y_offset))
    ||| (width > (fb_width as u16) && (left > fb_width + x_offset || left + w < x_offset))
}

pub fn out_of_view(
    left: u32,
    top: u32,
    w: u32,
    h: u32,
    width: u16,
    height: u16,
    fb_width: u32,
    fb_height: u32,
    x_offset: u32,
    y_offset: u32,
) -> (b: bool)
    requires
        height > (fb_height as u16) ==> fb_height + y_offset <= u32::MAX && (top <= fb_height
            + y_offset ==> top + h <= u32::MAX),
        width > (fb_width as u16) && !(height > (fb_height as u16) && (top > fb_height + y_offset
            || top + h < y_offset)) ==> fb_width + x_offset <= u32::MAX && (left <= fb_width
            + x_offset ==> left + w <= u32::MAX),
    ensures
        b == spec_out_of_view(left, top, w, h, width, height, fb_width, fb_height, x_offset, y_offset),
{
    if height > fb_height as u16 {
        if top > fb_height + y_offset {
            return true;
        }
        if top + h < y_offset {
            return true;
        }
    }
    if width > fb_width as u16 {
        if left > fb_width + x_offset {
            return true;
        }
        if left + w < x_offset {
            return true;
        }
    }
    false
}

/// The region of the device's screen that a rectangle drawn at its own size covers:
/// shifted by the padding and back by the offset of the view, its start moved past the
/// rows and columns cut off before the view, its size cut at the view's end when a cut
/// was made (`right_cut`, `bottom_cut` not 0).
pub open spec fn spec_unscaled_delta(
    left: i32,
    top: i32,
    w: i32,
    h: i32,
    x_padding: u32,
    y_padding: u32,
    x_offset: u32,
    y_offset: u32,
    left_cut: u32,
    top_cut: u32,
    right_cut: u32,
    bottom_cut: u32,
) -> Rectangle {
    let w2 = if right_cut > 0 { right_cut as i32 } else { w };
    let h2 = if bottom_cut > 0 { bottom_cut as i32 } else { h };
    rect_of(
        left + (x_padding as i32) + (left_cut as i32) - (x_offset as i32),
        top + (y_padding as i32) + (top_cut as i32) - (y_offset as i32),
        left + w2 + (x_padding as i32) - (x_offset as i32),
        top + h2 + (y_padding as i32) - (y_offset as i32),
    )
}

/// The sums and differences of `spec_unscaled_delta` stay within the range of an `i32`.
pub open spec fn unscaled_delta_defined(
    left: i32,
    top: i32,
    w: i32,
    h: i32,
    x_padding: u32,
    y_padding: u32,
    x_offset: u32,
    y_offset: u32,
    left_cut: u32,
    top_cut: u32,
    right_cut: u32,
    bottom_cut: u32,
) -> bool {
    let w2 = if right_cut > 0 { right_cut as i32 } else { w };
    let h2 = if bottom_cut > 0 { bottom_cut as i32 } else { h };
    &&& i32_fits(left + (x_padding as i32))
    &&& i32_fits(left + (x_padding as i32) + (left_cut as i32))
    &&& i32_fits(left + (x_padding as i32) + (left_cut as i32) - (x_offset as i32))
    &&& i32_fits(top + (y_padding as i32))
    &&& i32_fits(top + (y_padding as i32) + (top_cut as i32))
    &&& i32_fits(top + (y_padding as i32) + (top_cut as i32) - (y_offset as i32))
    &&& i32_fits(left + w2)
    &&& i32_fits(left + w2 + (x_padding as i32))
    &&& i32_fits(left + w2 + (x_padding as i32) - (x_offset as i32))
    &&& i32_fits(top + h2)
    &&& i32_fits(top + h2 + (y_padding as i32))
    &&& i32_fits(top + h2 + (y_padding as i32) - (y_offset as i32))
}

pub fn unscaled_delta_rect(
    left: i32,
    top: i32,
    w: i32,
    h: i32,
    x_padding: u32,
    y_padding: u32,
    x_offset: u32,
    y_offset: u32,
    left_cut: u32,
    top_cut: u32,
    right_cut: u32,
    bottom_cut: u32,
) -> (r: Rectangle)
    requires
        unscaled_delta_defined(left, top, w, h, x_padding, y_padding, x_offset, y_offset, left_cut, top_cut, right_cut, bottom_cut),
    ensures
        r == spec_unscaled_delta(left, top, w, h, x_padding, y_padding, x_offset, y_offset, left_cut, top_cut, right_cut, bottom_cut),
{
    let mut w = w;
    let mut h = h;
    if right_cut > 0 {
        w = right_cut as i32;
    }
    if bottom_cut > 0 {
        h = bottom_cut as i32;
    }
    Rectangle::from_coords(
        left + x_padding as i32 + left_cut as i32 - x_offset as i32,
        top + y_padding as i32 + top_cut as i32 - y_offset as i32,
        left + w + x_padding as i32 - x_offset as i32,
        top + h + y_padding as i32 - y_offset as i32,
    )
}

/// The number of bytes of a row of a 1-bit rectangle that its expansion scans: all of
/// them, unless the row is cropped (`crop`), in which case the scan stops at the first
/// byte whose first pixel, at `left + 8 j`, lies at or past the view's end `fb_width + x_offset`.
pub open spec fn row_stop(left: int, crop: bool, x_offset: int, fb_width: int, row_bytes: int) -> int {
    if !crop {
        row_bytes
    } else if left >= fb_width + x_offset {
        0
    } else {
        let j = (fb_width + x_offset - left + 7) / 8;
        if j < row_bytes {
            j
        } else {
            row_bytes
        }
    }
}

/// The first byte of a cropped row whose first pixel is not before the view's start.
pub open spec fn row_visible_start(left: int, crop: bool, x_offset: int) -> int {
    if crop && left < x_offset {
        (x_offset - left + 7) / 8
    } else {
        0
    }
}

/// The pixel of byte `j` of the row is the view's first column.
pub open spec fn starts_view(left: int, crop: bool, x_offset: int, j: int) -> bool {
    crop && left + 8 * j == x_offset
}

/// Expands the bytes of row `y_out` of a 1-bit rectangle whose first pixel lies at
/// `left` on the remote screen into `row_buf`, eight bytes of 0xFF or 0x00 for each:
/// byte `j` goes to `row_buf[8 j .. 8 j + 8]`. When the row is cropped (`crop`), the
/// bytes before the view's start are skipped, the scan stops at the view's end and
/// records there the number of bytes scanned in `right_cut`, and the byte that begins
/// exactly at the view's start records its index in `left_cut`.
pub fn expand_mono_row(
    pixels: &[u8],
    y_out: usize,
    row_bytes: usize,
    left: u32,
    crop: bool,
    x_offset: u32,
    fb_width: u32,
    row_buf: &mut [u8; 2048],
    left_cut: &mut u32,
    right_cut: &mut u32,
)
    requires
        crop ==> fb_width + x_offset <= u32::MAX,
        left + 8 * row_bytes + 8 <= usize::MAX,
        ({
            let s = row_stop(left as int, crop, x_offset as int, fb_width as int, row_bytes as int);
            let v = row_visible_start(left as int, crop, x_offset as int);
            v < s ==> y_out * row_bytes + s <= pixels@.len() && 8 * s <= 2048
        }),
    ensures
        ({
            let s = row_stop(left as int, crop, x_offset as int, fb_width as int, row_bytes as int);
            let v = row_visible_start(left as int, crop, x_offset as int);
            &&& forall|j: int, b: int|
                v <= j < s && 0 <= b < 8 ==> #[trigger] final(row_buf)@[8 * j + b] == expanded_bit(
                    pixels@[y_out * row_bytes + j],
                    b,
                )
            &&& forall|k: int|
                0 <= k < 2048 && !(8 * v <= k < 8 * s) ==> #[trigger] final(row_buf)@[k] == old(row_buf)@[k]
            &&& *final(right_cut) == if s < row_bytes {
                s as u32
            } else {
                *old(right_cut)
            }
            &&& *final(left_cut) == if starts_view(left as int, crop, x_offset as int, (x_offset - left) / 8)
                && left <= x_offset && (x_offset - left) / 8 < s {
                ((x_offset - left) / 8) as u32
            } else {
                *old(left_cut)
            }
        }),
{
    let ghost s = row_stop(left as int, crop, x_offset as int, fb_width as int, row_bytes as int);
    let ghost v = row_visible_start(left as int, crop, x_offset as int);
    let ghost old_buf = row_buf@;
    let ghost old_left = *left_cut;
    let ghost old_right = *right_cut;
    let end: usize = if crop {
        (fb_width + x_offset) as usize
    } else {
        0
    };
    let n_pixels = pixels.len();
    let mut col: usize = 0;
    let mut j: usize = 0;
    while j < row_bytes
        invariant_except_break
            j <= s,
            *right_cut == old_right,
        invariant
            0 <= j <= row_bytes,
            n_pixels == pixels@.len(),
            col == 8 * j,
            crop ==> end == fb_width + x_offset,
            left + 8 * row_bytes + 8 <= usize::MAX,
            s == row_stop(left as int, crop, x_offset as int, fb_width as int, row_bytes as int),
            v == row_visible_start(left as int, crop, x_offset as int),
            v < s ==> y_out * row_bytes + s <= pixels@.len() && 8 * s <= 2048,
            row_buf@.len() == 2048,
            forall|i: int, b: int|
                v <= i < j && i < s && 0 <= b < 8 ==> #[trigger] row_buf@[8 * i + b] == expanded_bit(
                    pixels@[y_out * row_bytes + i],
                    b,
                ),
            forall|k: int|
                0 <= k < 2048 && !(8 * v <= k < 8 * j && k < 8 * s) ==> #[trigger] row_buf@[k] == old_buf[k],
            *left_cut == if starts_view(left as int, crop, x_offset as int, (x_offset - left) / 8)
                && left <= x_offset && (x_offset - left) / 8 < j {
                ((x_offset - left) / 8) as u32
            } else {
                old_left
            },
        ensures
            *right_cut == if s < row_bytes {
                s as u32
            } else {
                old_right
            },
            forall|i: int, b: int|
                v <= i < s && 0 <= b < 8 ==> #[trigger] row_buf@[8 * i + b] == expanded_bit(
                    pixels@[y_out * row_bytes + i],
                    b,
                ),
            forall|k: int|
                0 <= k < 2048 && !(8 * v <= k < 8 * s) ==> #[trigger] row_buf@[k] == old_buf[k],
            *left_cut == if starts_view(left as int, crop, x_offset as int, (x_offset - left) / 8)
                && left <= x_offset && (x_offset - left) / 8 < s {
                ((x_offset - left) / 8) as u32
            } else {
                old_left
            },
        decreases row_bytes - j,
    {
        if crop {
            if (left as usize) + col < (x_offset as usize) {
                assert(j < v);
                col = col + 8;
                j = j + 1;
                continue;
            }
            if (left as usize) + col >= end {
                *right_cut = (col / 8) as u32;
                break;
            }
            if (left as usize) + col == (x_offset as usize) {
                *left_cut = (col / 8) as u32;
            }
        }
        proof {
            assert(v <= j && j < s);
            assert(y_out * row_bytes + s <= pixels@.len());
        }
        let byte = pixels[y_out * row_bytes + j];
        let expanded = expand_1bpp(byte);
        let ghost before = row_buf@;
        let mut b: usize = 0;
        while b < 8
            invariant
                0 <= b <= 8,
                row_buf@.len() == 2048,
                before.len() == 2048,
                col + 8 <= 2048,
                forall|c: int| 0 <= c < b ==> #[trigger] row_buf@[col + c] == expanded@[c],
                forall|k: int| 0 <= k < 2048 && !(col <= k < col + b) ==> #[trigger] row_buf@[k] == before[k],
            decreases 8 - b,
        {
            row_buf[col + b] = expanded[b];
            b = b + 1;
        }
        proof {
            assert forall|i: int, bb: int|
                v <= i < j + 1 && i < s && 0 <= bb < 8 implies #[trigger] row_buf@[8 * i + bb] == expanded_bit(
                    pixels@[y_out * row_bytes + i],
                    bb,
                ) by {
                if i == j {
                    assert(row_buf@[col + bb] == expanded@[bb]);
                } else {
                    assert(row_buf@[8 * i + bb] == before[8 * i + bb]);
                }
            }
        }
        col = col + 8;
        j = j + 1;
    }
}

/// Where the levels of a pixel of the server's format come from.
#[derive(Clone, Copy, Debug, PartialEq, Eq, Structural)]
pub enum PixelSource {
    /// The pixel lies past the data sent: it is skipped.
    Skip,
    /// Red, green and blue levels.
    Levels(u8, u8, u8),
    /// A little-endian RGB565 pixel, low byte first, whose levels are scaled to 0..=255.
    Rgb565(u8, u8),
    /// An RGB332 pixel, whose levels are scaled to 0..=255.
    Rgb332(u8),
}

/// The source of the levels of pixel `idx` of the data sent, at `bpp` bytes a pixel:
/// the first three bytes of pixels of three bytes or more; the two bytes of an RGB565
/// pixel; the byte of an RGB332 pixel; else the byte of a pixel of two-bit channels.
/// A pixel whose first byte lies past the data is skipped.
pub open spec fn spec_pixel_source(pixels: Seq<u8>, idx: int, bpp: int, colour_format: u8) -> PixelSource {
    let at = idx * bpp;
    if at > pixels.len() {
        PixelSource::Skip
    } else if bpp >= 3 {
        PixelSource::Levels(pixels[at], pixels[at + 1], pixels[at + 2])
    } else if bpp == 2 && colour_format == 4 {
        PixelSource::Rgb565(pixels[at], pixels[at + 1])
    } else if bpp == 1 && (colour_format == 1 || colour_format == 2) {
        let (r, g, b) = spec_two_bit_rgb(pixels[idx], colour_format);
        PixelSource::Levels(r, g, b)
    } else if bpp == 1 && colour_format == 3 {
        PixelSource::Rgb332(pixels[idx])
    } else {
        let (r, g, b) = spec_two_bit_rgb(pixels[idx], 0);
        PixelSource::Levels(r, g, b)
    }
}

/// The bytes that `spec_pixel_source` reads lie within the data.
pub open spec fn pixel_source_defined(len: int, idx: int, bpp: int, colour_format: u8) -> bool {
    let at = idx * bpp;
    &&& at + 2 <= usize::MAX
    &&& at <= len ==> if bpp >= 3 {
        at + 2 < len
    } else if bpp == 2 && colour_format == 4 {
        at + 1 < len
    } else {
        idx < len
    }
}

/// Reads the source of the levels of pixel `idx`, as `spec_pixel_source` says.
pub fn pixel_source(pixels: &[u8], idx: usize, bpp: usize, colour_format: u8) -> (p: PixelSource)
    requires
        pixel_source_defined(pixels@.len() as int, idx as int, bpp as int, colour_format),
    ensures
        p == spec_pixel_source(pixels@, idx as int, bpp as int, colour_format),
{
    assert(idx * bpp <= usize::MAX);
    let at = idx * bpp;
    if at > pixels.len() {
        PixelSource::Skip
    } else if bpp >= 3 {
        PixelSource::Levels(pixels[at], pixels[at + 1], pixels[at + 2])
    } else if bpp == 2 && colour_format == 4 {
        PixelSource::Rgb565(pixels[at], pixels[at + 1])
    } else if bpp == 1 && (colour_format == 1 || colour_format == 2) {
        let (r, g, b) = two_bit_rgb(pixels[idx], colour_format);
        PixelSource::Levels(r, g, b)
    } else if bpp == 1 && colour_format == 3 {
        PixelSource::Rgb332(pixels[idx])
    } else {
        let (r, g, b) = two_bit_rgb(pixels[idx], 0);
        PixelSource::Levels(r, g, b)
    }
}

/// A rectangle is dropped exactly when it misses the view: on an axis where the remote
/// screen exceeds the device's, its span `[start, start + size]` and the view's span
/// `[offset, offset + device size]` do not meet. A rectangle that is kept meets the view
/// on every such axis, and a rectangle on no such axis is always kept.
pub proof fn law_out_of_view_is_missing_the_view(
    left: u32,
    top: u32,
    w: u32,
    h: u32,
    width: u16,
    height: u16,
    fb_width: u32,
    fb_height: u32,
    x_offset: u32,
    y_offset: u32,
)
    ensures
        ({
            let out = spec_out_of_view(left, top, w, h, width, height, fb_width, fb_height, x_offset, y_offset);
            let rows_cropped = height > (fb_height as u16);
            let cols_cropped = width > (fb_width as u16);
            let rows_meet = y_offset <= top + h && top <= y_offset + fb_height;
            let cols_meet = x_offset <= left + w && left <= x_offset + fb_width;
            &&& rows_cropped && top + h < y_offset ==> out
            &&& rows_cropped && top > y_offset + fb_height ==> out
            &&& cols_cropped && left + w < x_offset ==> out
            &&& cols_cropped && left > x_offset + fb_width ==> out
            &&& !out ==> (rows_cropped ==> rows_meet) && (cols_cropped ==> cols_meet)
            &&& (rows_cropped ==> rows_meet) && (cols_cropped ==> cols_meet) ==> !out
        }),
{
}

/// The region asked for never exceeds the remote screen nor the device's screen: when
/// scaled, the whole remote screen from the origin; else, from the view's offset, each
/// side the smaller of the remote screen's and the device's (read as 16 bits), each
/// axis on its own.
pub proof fn law_update_request_is_the_smaller_side(
    scale: bool,
    x_offset: u32,
    y_offset: u32,
    width: u16,
    height: u16,
    fb_width: u32,
    fb_height: u32,
)
    ensures
        match spec_update_request(scale, x_offset, y_offset, width, height, fb_width, fb_height) {
            VncCommand::RequestUpdate { left, top, width: w, height: h } => if scale {
                left == 0 && top == 0 && w == width && h == height
            } else {
                &&& left == x_offset as u16
                &&& top == y_offset as u16
                &&& w <= width && w <= (fb_width as u16)
                &&& (w == width || w == (fb_width as u16))
                &&& h <= height && h <= (fb_height as u16)
                &&& (h == height || h == (fb_height as u16))
            },
            _ => false,
        },
{
}

/// The waveforms of the command line go by number: 1 fast (A2), 2 fast monochrome,
/// 3 the interface's (DU), 4 partial (GL16), 5 full (GC16); any other number gives the
/// default, full for full refreshes and partial for partial ones.
pub proof fn law_update_modes_by_number(choice: i8)
    ensures
        choice == 1 ==> spec_update_mode(choice, UpdateMode::Full) == UpdateMode::Fast && spec_update_mode(choice, UpdateMode::Partial) == UpdateMode::Fast,
        choice == 2 ==> spec_update_mode(choice, UpdateMode::Full) == UpdateMode::FastMono && spec_update_mode(choice, UpdateMode::Partial) == UpdateMode::FastMono,
        choice == 3 ==> spec_update_mode(choice, UpdateMode::Full) == UpdateMode::Gui && spec_update_mode(choice, UpdateMode::Partial) == UpdateMode::Gui,
        choice == 4 ==> spec_update_mode(choice, UpdateMode::Full) == UpdateMode::Partial && spec_update_mode(choice, UpdateMode::Partial) == UpdateMode::Partial,
        choice == 5 ==> spec_update_mode(choice, UpdateMode::Full) == UpdateMode::Full && spec_update_mode(choice, UpdateMode::Partial) == UpdateMode::Full,
        !(1 <= choice <= 5) ==> spec_update_mode(choice, UpdateMode::Full) == UpdateMode::Full && spec_update_mode(choice, UpdateMode::Partial) == UpdateMode::Partial,
{
}

/// The white cutoff turns every level above it white and leaves the others as they are.
pub proof fn law_white_cutoff(level: u8, white_cutoff: u8)
    ensures
        level > white_cutoff ==> cut_to_white(level, white_cutoff) == 255,
        level <= white_cutoff ==> cut_to_white(level, white_cutoff) == level,
        cut_to_white(level, white_cutoff) >= level,
{
}

/// Within the frame time the loop waits exactly the rest of the frame; after it, it
/// refreshes: fully once the partial refreshes since the last full one number more than
/// `max_dirty_refreshes`, else partly.
pub proof fn law_refresh_waits_out_the_frame(elapsed_ms: u64, frame_ms: u64, dirty_update_count: u64, max_dirty_refreshes: u64)
    ensures
        elapsed_ms < frame_ms ==> (spec_refresh_action(elapsed_ms, frame_ms, dirty_update_count, max_dirty_refreshes) matches RefreshAction::Sleep(ms) && elapsed_ms + ms == frame_ms),
        elapsed_ms >= frame_ms && dirty_update_count > max_dirty_refreshes ==> spec_refresh_action(elapsed_ms, frame_ms, dirty_update_count, max_dirty_refreshes) == RefreshAction::Full,
        elapsed_ms >= frame_ms && dirty_update_count <= max_dirty_refreshes ==> spec_refresh_action(elapsed_ms, frame_ms, dirty_update_count, max_dirty_refreshes) == RefreshAction::Partial,
{
}

/// The key of the password method has eight bytes: the password's first ones, then zeros.
pub proof fn law_password_key_is_padded_prefix(password: Seq<u8>, i: int)
    requires
        0 <= i < 8,
    ensures
        spec_password_key(password).len() == 8,
        i < password.len() ==> spec_password_key(password)[i] == password[i],
        i >= password.len() ==> spec_password_key(password)[i] == 0,
{
}

/// Red lies at index 2 exactly when the device puts it at a non-zero offset and the
/// swap of red and blue is not asked for; else at index 0.
pub proof fn law_red_index(red_offset: u32, invert_red_shift: bool)
    ensures
        spec_red_index(red_offset, invert_red_shift) == 2 <==> (red_offset != 0 && !invert_red_shift),
        spec_red_index(red_offset, invert_red_shift) == 0 <==> (red_offset == 0 || invert_red_shift),
{
}

/// The method of an answer.
pub open spec fn answered_method(a: AuthChoiceModel) -> AuthMethod {
    match a {
        AuthChoiceModel::NoAuth => AuthMethod::NoAuth,
        AuthChoiceModel::Password(_) => AuthMethod::Password,
        AuthChoiceModel::AppleRemoteDesktop(_, _) => AuthMethod::AppleRemoteDesktop,
    }
}

/// The answer is to a method the server offered, with what that method needs: a
/// password answer carries the key of the password and exists only when a password is
/// given; an Apple Remote Desktop answer carries the given user name and password. A
/// server that offers no authentication first gets that answer.
pub proof fn law_auth_answers_an_offered_method(
    methods: Seq<AuthMethod>,
    username: Option<Seq<char>>,
    password: Option<Seq<char>>,
    password_bytes: Seq<u8>,
)
    ensures
        ({
            let c = spec_auth_choice(methods, username, password, password_bytes);
            &&& (c matches Some(a) ==> methods.contains(answered_method(a)))
            &&& (c matches Some(AuthChoiceModel::Password(k)) ==> password is Some && k == spec_password_key(password_bytes))
            &&& (c matches Some(AuthChoiceModel::AppleRemoteDesktop(u, p)) ==> username == Some(u) && password == Some(p))
            &&& methods.len() > 0 && methods[0] == AuthMethod::NoAuth ==> c == Some(AuthChoiceModel::NoAuth)
            &&& methods.len() == 0 ==> c is None
        }),
    decreases methods.len(),
{
    if methods.len() > 0 {
        law_auth_answers_an_offered_method(methods.drop_first(), username, password, password_bytes);
        let c = spec_auth_choice(methods, username, password, password_bytes);
        if let Some(a) = c {
            if methods[0] == answered_method(a) {
                assert(methods[0] == answered_method(a));
            } else {
                let r = spec_auth_choice(methods.drop_first(), username, password, password_bytes);
                assert(r == c);
                let j = choose|j: int| 0 <= j < methods.drop_first().len() && methods.drop_first()[j] == answered_method(a);
                assert(methods[j + 1] == answered_method(a));
            }
        }
    }
}

/// A pixel of two-bit channels reads each channel as a number from 0 to 3 and spreads
/// it over the gray scale in steps of 85: for formats 1 and 2 red is the second pair of
/// bits from the bottom, green the third and blue the top one; for the others red is
/// the lowest pair, green the second and blue the third.
pub proof fn law_two_bit_channels(byte: u8, colour_format: u8)
    ensures
        ({
            let (r, g, b) = spec_two_bit_rgb(byte, colour_format);
            if colour_format == 1 || colour_format == 2 {
                r == (byte / 4) % 4 * 85 && g == (byte / 16) % 4 * 85 && b == (byte / 64) % 4 * 85
            } else {
                r == byte % 4 * 85 && g == (byte / 4) % 4 * 85 && b == (byte / 16) % 4 * 85
            }
        }),
{
    assert((byte >> 0u8) & 3u8 == byte % 4) by (bit_vector);
    assert((byte >> 2u8) & 3u8 == (byte / 4) % 4) by (bit_vector);
    assert((byte >> 4u8) & 3u8 == (byte / 16) % 4) by (bit_vector);
    assert((byte >> 6u8) & 3u8 == (byte / 64) % 4) by (bit_vector);
}

/// A 1-bit pixel is white (0xFF) when its bit is set and black (0x00) when it is clear,
/// the first pixel in the most significant bit.
pub proof fn law_expanded_bit_is_the_bit(byte: u8, bit: int)
    requires
        0 <= bit < 8,
    ensures
        expanded_bit(byte, bit) == if (byte as int / pow2_of(7 - bit)) % 2 == 1 { 0xFFu8 } else { 0x00u8 },
{
    let s = (7 - bit) as u8;
    assert(s < 8);
    assert((byte >> 0u8) & 1u8 == byte % 2) by (bit_vector);
    assert((byte >> 1u8) & 1u8 == (byte / 2) % 2) by (bit_vector);
    assert((byte >> 2u8) & 1u8 == (byte / 4) % 2) by (bit_vector);
    assert((byte >> 3u8) & 1u8 == (byte / 8) % 2) by (bit_vector);
    assert((byte >> 4u8) & 1u8 == (byte / 16) % 2) by (bit_vector);
    assert((byte >> 5u8) & 1u8 == (byte / 32) % 2) by (bit_vector);
    assert((byte >> 6u8) & 1u8 == (byte / 64) % 2) by (bit_vector);
    assert((byte >> 7u8) & 1u8 == (byte / 128) % 2) by (bit_vector);
}

/// Two to the power `k`, for `k` from 0 to 7.
pub open spec fn pow2_of(k: int) -> int {
    if k == 0 { 1 } else if k == 1 { 2 } else if k == 2 { 4 } else if k == 3 { 8 } else if k == 4 { 16 } else if k == 5 { 32 } else if k == 6 { 64 } else { 128 }
}

} // verus!
