//! The decisions of a running session: which part of each rectangle the server sends
//! falls in view, which region of the device's screen it dirties, when to ask for the
//! next frame, and when to refresh the e-ink screen partly or fully.
use vstd::prelude::*;
use crate::client::{
    RefreshAction, out_of_view, refresh_action, row_stop, spec_out_of_view, spec_refresh_action,
    spec_unscaled_delta, spec_update_request, starts_view, unscaled_delta_defined,
    unscaled_delta_rect, update_request,
};
use crate::dirty::{
    dirty_bounds, dirty_union, lemma_bounds_contain_each, law_push_keeps_every_region, push_defined,
    push_to_dirty_rect_list, pushed_dirty_list,
};
use crate::event_handling::VncCommand;
use crate::geom::{Rectangle, i32_fits, lemma_contains_transitive};
use crate::scaling::Placement;
use crate::view::UpdateMode;

verus! {

/// A rectangle of the remote screen, as the server names it.
#[derive(Clone, Copy, Debug, PartialEq, Eq, Structural)]
pub struct VncRect {
    pub left: u16,
    pub top: u16,
    pub width: u16,
    pub height: u16,
}

/// What a session works with: the sizes of the remote and the device's screens, the
/// offset of the view on the remote screen, whether the remote screen is scaled to fit
/// and whether it is sent one bit per pixel, the length of a frame, how many partial
/// refreshes may follow one another, and the waveforms of the two kinds of refresh.
#[derive(Clone, Copy, Debug, PartialEq, Eq, Structural)]
pub struct SessionConfig {
    pub width: u16,
    pub height: u16,
    pub fb_width: u32,
    pub fb_height: u32,
    pub x_offset: u32,
    pub y_offset: u32,
    pub scale: bool,
    pub encoding: bool,
    pub frame_ms: u64,
    pub max_dirty_refreshes: u64,
    pub full_update_mode: UpdateMode,
    pub partial_update_mode: UpdateMode,
}

/// The remote screen is taller than the device's (read as 16 bits): rows are cropped to the view.
pub open spec fn crops_rows(c: SessionConfig) -> bool {
    c.height > (c.fb_height as u16)
}

/// The remote screen is wider than the device's (read as 16 bits): columns are cropped to the view.
pub open spec fn crops_cols(c: SessionConfig) -> bool {
    c.width > (c.fb_width as u16)
}

/// How a rectangle that starts at `start` and spans `n` pixels along one axis meets the
/// view `[o, o + f)` of that axis. Scanning its pixels in order, those before the view
/// are skipped and the scan stops at the view's end: `first` and `end` bound the
/// pixels drawn. `start_cut` is the pixel that lies on the view's start, when the scan
/// reaches it, else 0; `end_cut` is the pixel on which the scan stopped, else 0.
pub struct AxisCrop {
    pub first: u32,
    pub end: u32,
    pub start_cut: u32,
    pub end_cut: u32,
}

pub open spec fn spec_axis_crop(start: int, n: int, crop: bool, o: int, f: int) -> AxisCrop {
    let stops = crop && start <= f + o && f + o < start + n;
    let end = if stops { f + o - start } else { n };
    AxisCrop {
        first: (if crop && start < o { o - start } else { 0 }) as u32,
        end: end as u32,
        start_cut: (if crop && start <= o && o - start < end { o - start } else { 0 }) as u32,
        end_cut: (if stops { f + o - start } else { 0 }) as u32,
    }
}

/// Crops one axis of a rectangle to the view, as `spec_axis_crop` says.
pub fn axis_crop(start: u32, n: u32, crop: bool, o: u32, f: u32) -> (a: AxisCrop)
    requires
        start + n <= u32::MAX,
        crop ==> f + o <= u32::MAX,
    ensures
        a == spec_axis_crop(start as int, n as int, crop, o as int, f as int),
{
    let stops = crop && start <= f + o && f + o < start + n;
    let end = if stops {
        f + o - start
    } else {
        n
    };
    let first = if crop && start < o {
        o - start
    } else {
        0
    };
    let start_cut = if crop && start <= o && o - start < end {
        o - start
    } else {
        0
    };
    let end_cut = if stops {
        f + o - start
    } else {
        0
    };
    AxisCrop { first, end, start_cut, end_cut }
}

/// The part of a rectangle that is drawn, in its own coordinates: columns
/// `[first_col, end_col)` of rows `[first_row, end_row)`; and the cuts from which the
/// dirtied region of the device's screen is computed (see `spec_unscaled_delta`).
#[derive(Clone, Copy, Debug, PartialEq, Eq, Structural)]
pub struct Window {
    pub first_col: u32,
    pub end_col: u32,
    pub first_row: u32,
    pub end_row: u32,
    pub left_cut: u32,
    pub top_cut: u32,
    pub right_cut: u32,
    pub bottom_cut: u32,
}

/// The window of a rectangle of `w` by `h` pixels at `(left, top)` on the remote
/// screen, drawn pixel by pixel. Columns are scanned only within drawn rows, so the
/// column cuts stay 0 when no row is drawn.
pub open spec fn spec_pixel_window(left: int, top: int, w: int, h: int, c: SessionConfig) -> Window {
    let rows = spec_axis_crop(top, h, crops_rows(c), c.y_offset as int, c.fb_height as int);
    let cols = spec_axis_crop(left, w, crops_cols(c), c.x_offset as int, c.fb_width as int);
    let drawn = rows.first < rows.end;
    Window {
        first_col: cols.first,
        end_col: cols.end,
        first_row: rows.first,
        end_row: rows.end,
        left_cut: if drawn { cols.start_cut } else { 0 },
        top_cut: rows.start_cut,
        right_cut: if drawn { cols.end_cut } else { 0 },
        bottom_cut: rows.end_cut,
    }
}

/// The sums that cropping to the view computes fit in a `u32`.
pub open spec fn view_fits(c: SessionConfig) -> bool {
    &&& crops_rows(c) ==> c.fb_height + c.y_offset <= u32::MAX
    &&& crops_cols(c) ==> c.fb_width + c.x_offset <= u32::MAX
}

fn pixel_window(left: u16, top: u16, w: u16, h: u16, c: &SessionConfig) -> (win: Window)
    requires
        view_fits(*c),
    ensures
        win == spec_pixel_window(left as int, top as int, w as int, h as int, *c),
{
    let crop_rows = c.height > c.fb_height as u16;
    let crop_cols = c.width > c.fb_width as u16;
    let rows = axis_crop(top as u32, h as u32, crop_rows, c.y_offset, c.fb_height);
    let cols = axis_crop(left as u32, w as u32, crop_cols, c.x_offset, c.fb_width);
    let drawn = rows.first < rows.end;
    Window {
        first_col: cols.first,
        end_col: cols.end,
        first_row: rows.first,
        end_row: rows.end,
        left_cut: if drawn {
            cols.start_cut
        } else {
            0
        },
        top_cut: rows.start_cut,
        right_cut: if drawn {
            cols.end_cut
        } else {
            0
        },
        bottom_cut: rows.end_cut,
    }
}

/// The window of a 1-bit rectangle. Its rows are cropped as a rectangle drawn pixel by
/// pixel; its columns are scanned a byte (eight pixels) at a time, as `expand_mono_row`
/// does, and the cuts that the scan records count bytes: `left_cut` is the byte that
/// begins on the view's start, `right_cut` the number of bytes scanned when the scan
/// stopped at the view's end. The columns drawn run from `left_cut` to `right_cut`,
/// or to the width when the scan did not stop.
pub open spec fn spec_mono_window(r: VncRect, c: SessionConfig) -> Window {
    let rows = spec_axis_crop(r.top as int, r.height as int, crops_rows(c), c.y_offset as int, c.fb_height as int);
    let drawn = rows.first < rows.end;
    let l = r.left as int;
    let o = c.x_offset as int;
    let row_bytes = (r.width as int + 7) / 8;
    let s = row_stop(l, crops_cols(c), o, c.fb_width as int, row_bytes);
    let left: u32 = if drawn && starts_view(l, crops_cols(c), o, (o - l) / 8) && l <= o && (o - l) / 8 < s {
        ((o - l) / 8) as u32
    } else {
        0
    };
    let right: u32 = if drawn && s < row_bytes { s as u32 } else { 0 };
    Window {
        first_col: left,
        end_col: if right > 0 { right } else { r.width as u32 },
        first_row: rows.first,
        end_row: rows.end,
        left_cut: left,
        top_cut: rows.start_cut,
        right_cut: right,
        bottom_cut: rows.end_cut,
    }
}

fn mono_window(r: VncRect, c: &SessionConfig) -> (win: Window)
    requires
        view_fits(*c),
    ensures
        win == spec_mono_window(r, *c),
{
    let crop_rows = c.height > c.fb_height as u16;
    let crop_cols = c.width > c.fb_width as u16;
    let rows = axis_crop(r.top as u32, r.height as u32, crop_rows, c.y_offset, c.fb_height);
    let drawn = rows.first < rows.end;
    let l = r.left as u32;
    let o = c.x_offset;
    let row_bytes: u32 = (r.width as u32 + 7) / 8;
    let s: u32 = if !crop_cols {
        row_bytes
    } else if l >= c.fb_width + o {
        0
    } else {
        let j: u64 = (c.fb_width as u64 + o as u64 - l as u64 + 7) / 8;
        if j < row_bytes as u64 {
            j as u32
        } else {
            row_bytes
        }
    };
    let left: u32 = if drawn && crop_cols && l <= o && (o - l) % 8 == 0 && (o - l) / 8 < s {
        (o - l) / 8
    } else {
        0
    };
    proof {
        if drawn && crop_cols && l <= o {
            let q = (o - l) as int;
            assert((l + 8 * (q / 8) == o) == (q % 8 == 0));
        }
    }
    let right: u32 = if drawn && s < row_bytes {
        s
    } else {
        0
    };
    Window {
        first_col: left,
        end_col: if right > 0 {
            right
        } else {
            r.width as u32
        },
        first_row: rows.first,
        end_row: rows.end,
        left_cut: left,
        top_cut: rows.start_cut,
        right_cut: right,
        bottom_cut: rows.end_cut,
    }
}

/// A copy within the remote screen lies wholly outside the view: on an axis that is
/// cropped, its destination or its source (both with the destination's size) starts
/// past the view's end or ends before the view's start.
pub open spec fn copy_out_of_view(src: VncRect, dst: VncRect, c: SessionConfig) -> bool {
    let yo = c.y_offset as int;
    let xo = c.x_offset as int;
    let fh = c.fb_height as int;
    let fw = c.fb_width as int;
    ||| crops_rows(c) && (dst.top > fh + yo || dst.top + dst.height < yo || src.top > fh + yo
        || src.top + dst.height < yo)
    ||| crops_cols(c) && (dst.left > fw + xo || dst.left + dst.width < xo || src.left > fw + xo
        || src.left + dst.width < xo)
}

/// The windows of a copy at the remote screen's own size: the part of the source that
/// is read and the part of the destination that is written, each the size of the
/// destination; none when the copy lies outside the view.
pub open spec fn spec_copy_window(src: VncRect, dst: VncRect, c: SessionConfig) -> Option<(Window, Window)> {
    if copy_out_of_view(src, dst, c) {
        None
    } else {
        Some((
            spec_pixel_window(src.left as int, src.top as int, dst.width as int, dst.height as int, c),
            spec_pixel_window(dst.left as int, dst.top as int, dst.width as int, dst.height as int, c),
        ))
    }
}

/// Crops a copy from `src` to `dst` to the view, as `spec_copy_window` says.
pub fn copy_window(src: VncRect, dst: VncRect, c: &SessionConfig) -> (w: Option<(Window, Window)>)
    requires
        view_fits(*c),
    ensures
        w == spec_copy_window(src, dst, *c),
{
    let yo = c.y_offset;
    let xo = c.x_offset;
    if c.height > c.fb_height as u16 {
        let end = c.fb_height + yo;
        if dst.top as u32 > end || (dst.top as u32 + dst.height as u32) < yo || src.top as u32 > end
            || (src.top as u32 + dst.height as u32) < yo {
            return None;
        }
    }
    if c.width > c.fb_width as u16 {
        let end = c.fb_width + xo;
        if dst.left as u32 > end || (dst.left as u32 + dst.width as u32) < xo || src.left as u32 > end
            || (src.left as u32 + dst.width as u32) < xo {
            return None;
        }
    }
    let sw = pixel_window(src.left, src.top, dst.width, dst.height, c);
    let dw = pixel_window(dst.left, dst.top, dst.width, dst.height, c);
    Some((sw, dw))
}

/// The coordinate on the device of pixel `k` of a rectangle at `start` on the remote
/// screen, drawn at its own size: shifted back by the view's offset, then on by the
/// padding, on unsigned 32-bit numbers; none where a step leaves that range.
pub open spec fn spec_device_coord(start: u16, k: u32, offset: u32, padding: u32) -> Option<u32> {
    let v = start + k - offset;
    if start + k <= u32::MAX && v >= 0 && v + padding <= u32::MAX {
        Some((v + padding) as u32)
    } else {
        None
    }
}

pub fn device_coord(start: u16, k: u32, offset: u32, padding: u32) -> (r: Option<u32>)
    ensures
        r == spec_device_coord(start, k, offset, padding),
{
    let a = start as u32;
    if k > u32::MAX - a {
        return None;
    }
    let b = a + k;
    if b < offset {
        return None;
    }
    let v = b - offset;
    if padding > u32::MAX - v {
        return None;
    }
    Some(v + padding)
}

/// The coordinate on the device from which pixel `k` of the source of a copy at
/// `start` is read: moved on by the padding, then back by the view's offset, on
/// unsigned 32-bit numbers; none where a step leaves that range.
pub open spec fn spec_source_coord(start: u16, k: u32, offset: u32, padding: u32) -> Option<u32> {
    let v = start + k + padding;
    if v <= u32::MAX && v - offset >= 0 {
        Some((v - offset) as u32)
    } else {
        None
    }
}

pub fn source_coord(start: u16, k: u32, offset: u32, padding: u32) -> (r: Option<u32>)
    ensures
        r == spec_source_coord(start, k, offset, padding),
{
    let a = start as u32;
    if k > u32::MAX - a {
        return None;
    }
    let b = a + k;
    if padding > u32::MAX - b {
        return None;
    }
    let v = b + padding;
    if v < offset {
        return None;
    }
    Some(v - offset)
}

/// Where row `y` of a 1-bit rectangle at `(left, top)` starts on the device: at the
/// rectangle's position shifted on by the padding, back by the view's offset, and on
/// by the bytes cut at its left (`left_cut`, counted as pixels), each sum on 32-bit
/// signed numbers and the result read as unsigned; none where a sum leaves that range.
pub open spec fn spec_mono_row_origin(
    left: u16,
    top: u16,
    y: u32,
    x_padding: u32,
    y_padding: u32,
    x_offset: u32,
    y_offset: u32,
    left_cut: u32,
) -> Option<(u32, u32)> {
    let x1 = left + (x_padding as i32);
    let x2 = x1 - (x_offset as i32);
    let x3 = x2 + (left_cut as i32);
    let y1 = top + (y as i32);
    let y2 = y1 + (y_padding as i32);
    let y3 = y2 - (y_offset as i32);
    if i32_fits(x1) && i32_fits(x2) && i32_fits(x3) && i32_fits(y1) && i32_fits(y2) && i32_fits(y3) {
        Some(((x3 as i32) as u32, (y3 as i32) as u32))
    } else {
        None
    }
}

pub fn mono_row_origin(
    left: u16,
    top: u16,
    y: u32,
    x_padding: u32,
    y_padding: u32,
    x_offset: u32,
    y_offset: u32,
    left_cut: u32,
) -> (r: Option<(u32, u32)>)
    ensures
        r == spec_mono_row_origin(left, top, y, x_padding, y_padding, x_offset, y_offset, left_cut),
{
    let x1 = left as i64 + x_padding as i32 as i64;
    let x2 = x1 - x_offset as i32 as i64;
    let x3 = x2 + left_cut as i32 as i64;
    let y1 = top as i64 + y as i32 as i64;
    let y2 = y1 + y_padding as i32 as i64;
    let y3 = y2 - y_offset as i32 as i64;
    let lo = i32::MIN as i64;
    let hi = i32::MAX as i64;
    if lo <= x1 && x1 <= hi && lo <= x2 && x2 <= hi && lo <= x3 && x3 <= hi && lo <= y1 && y1 <= hi
        && lo <= y2 && y2 <= hi && lo <= y3 && y3 <= hi {
        Some((x3 as i32 as u32, y3 as i32 as u32))
    } else {
        None
    }
}

/// What a session keeps from one step to the next: the regions drawn since the last
/// partial refresh, the regions drawn since the last full refresh (which nothing fills
/// in this client, so a full refresh covers the empty start box), the number of
/// partial refreshes since the last full one, and whether the server ended a frame in
/// the current pass.
pub struct SessionState {
    pub dirty_rects: Vec<Rectangle>,
    pub dirty_rects_since_refresh: Vec<Rectangle>,
    pub dirty_update_count: u64,
    pub frame_complete: bool,
}

/// What the state of a session is.
pub struct SessionStateModel {
    pub dirty_rects: Seq<Rectangle>,
    pub dirty_rects_since_refresh: Seq<Rectangle>,
    pub dirty_update_count: u64,
    pub frame_complete: bool,
}

impl View for SessionState {
    type V = SessionStateModel;

    open spec fn view(&self) -> SessionStateModel {
        SessionStateModel {
            dirty_rects: self.dirty_rects@,
            dirty_rects_since_refresh: self.dirty_rects_since_refresh@,
            dirty_update_count: self.dirty_update_count,
            frame_complete: self.frame_complete,
        }
    }
}

impl SessionState {
    /// The state at the start of a session: nothing drawn, no refresh made.
    pub fn new() -> (s: SessionState)
        ensures
            s@ == (SessionStateModel {
                dirty_rects: Seq::empty(),
                dirty_rects_since_refresh: Seq::empty(),
                dirty_update_count: 0,
                frame_complete: false,
            }),
    {
        SessionState {
            dirty_rects: Vec::new(),
            dirty_rects_since_refresh: Vec::new(),
            dirty_update_count: 0,
            frame_complete: false,
        }
    }
}

/// What happens to a session: a message of the server (pixels to draw, a region to
/// copy, the end of a frame, the connection lost); a region that the caller drew
/// itself and that waits for a refresh (the scaled image, whose size is computed in
/// floating point); or the end of a pass of the loop, with the time since the last
/// refresh.
#[derive(Clone, Copy, Debug, PartialEq, Eq, Structural)]
pub enum SessionInput {
    PutPixels(VncRect),
    CopyPixels { src: VncRect, dst: VncRect },
    Drawn(Rectangle),
    EndOfFrame,
    Tick { elapsed_ms: u64 },
    Disconnected,
}

/// What the caller is to do.
#[derive(Clone, Copy, Debug, PartialEq, Eq, Structural)]
pub enum SessionAction {
    /// Draw the pixels of `rect` that `window` bounds, at the remote screen's own size.
    DrawPixels { rect: VncRect, window: Window },
    /// Draw the pixels of the rectangle scaled to fit, and report the region drawn.
    DrawScaled(VncRect),
    /// Copy the window `src_window` of `src` onto the window `dst_window` of `dst`.
    CopyRegion { src: VncRect, dst: VncRect, src_window: Window, dst_window: Window },
    /// Copy `src` onto `dst` scaled to fit, and report the region drawn.
    CopyScaled { src: VncRect, dst: VncRect },
    /// Send this request to the server.
    Request(VncCommand),
    /// Wait this many milliseconds.
    Sleep(u64),
    /// Refresh `rect` of the e-ink screen with the waveform `mode`.
    Refresh { rect: Rectangle, mode: UpdateMode },
    /// End the session.
    Stop,
}

/// The window of a rectangle of pixels sent at the remote screen's own size.
pub open spec fn put_window(r: VncRect, c: SessionConfig) -> Window {
    if c.encoding {
        spec_mono_window(r, c)
    } else {
        spec_pixel_window(r.left as int, r.top as int, r.width as int, r.height as int, c)
    }
}

/// The region of the device's screen that drawing window `w` of `r` dirties.
pub open spec fn window_delta(r: VncRect, w: Window, p: Placement, c: SessionConfig) -> Rectangle {
    spec_unscaled_delta(
        r.left as i32,
        r.top as i32,
        r.width as i32,
        r.height as i32,
        p.x_padding,
        p.y_padding,
        c.x_offset,
        c.y_offset,
        w.left_cut,
        w.top_cut,
        w.right_cut,
        w.bottom_cut,
    )
}

/// The region that drawing window `w` of `r` dirties can be computed in an `i32`, and
/// pushed onto the dirty list `list`.
pub open spec fn window_delta_defined(list: Seq<Rectangle>, r: VncRect, w: Window, p: Placement, c: SessionConfig) -> bool {
    &&& unscaled_delta_defined(
        r.left as i32,
        r.top as i32,
        r.width as i32,
        r.height as i32,
        p.x_padding,
        p.y_padding,
        c.x_offset,
        c.y_offset,
        w.left_cut,
        w.top_cut,
        w.right_cut,
        w.bottom_cut,
    )
    &&& push_defined(list, window_delta(r, w, p, c))
}

/// The rectangle `r` lies wholly outside the view.
pub open spec fn put_out_of_view(r: VncRect, c: SessionConfig) -> bool {
    spec_out_of_view(
        r.left as u32,
        r.top as u32,
        r.width as u32,
        r.height as u32,
        c.width,
        c.height,
        c.fb_width,
        c.fb_height,
        c.x_offset,
        c.y_offset,
    )
}

/// The state with `d` recorded as dirty.
pub open spec fn with_dirty(s: SessionStateModel, d: Rectangle) -> SessionStateModel {
    SessionStateModel { dirty_rects: pushed_dirty_list(s.dirty_rects, d), ..s }
}

/// How a session answers `input`:
/// - pixels: when the remote screen is scaled, the caller draws them; else the part in
///   view is drawn and the region it covers is recorded as dirty, and a rectangle
///   wholly out of view is dropped;
/// - a copy: likewise, with the windows of its source and destination;
/// - a region the caller drew is recorded as dirty;
/// - the end of a frame is noted;
/// - at the end of a pass, the next frame is asked for when the server ended one; then,
///   within the frame time, the caller waits for the rest of it; after it, the screen
///   is refreshed: fully once more than `max_dirty_refreshes` partial refreshes were
///   made, which restarts their count, else partly over the bounds of the regions
///   drawn since the last partial refresh, which are then forgotten;
/// - a lost connection ends the session.
pub open spec fn spec_session_step(
    s: SessionStateModel,
    input: SessionInput,
    p: Placement,
    c: SessionConfig,
) -> (SessionStateModel, Seq<SessionAction>) {
    match input {
        SessionInput::PutPixels(r) => {
            if c.scale {
                (s, seq![SessionAction::DrawScaled(r)])
            } else if put_out_of_view(r, c) {
                (s, Seq::empty())
            } else {
                let w = put_window(r, c);
                (with_dirty(s, window_delta(r, w, p, c)), seq![SessionAction::DrawPixels { rect: r, window: w }])
            }
        },
        SessionInput::CopyPixels { src, dst } => {
            if c.scale {
                (s, seq![SessionAction::CopyScaled { src, dst }])
            } else {
                match spec_copy_window(src, dst, c) {
                    None => (s, Seq::empty()),
                    Some((sw, dw)) => (
                        with_dirty(s, window_delta(dst, dw, p, c)),
                        seq![SessionAction::CopyRegion { src, dst, src_window: sw, dst_window: dw }],
                    ),
                }
            }
        },
        SessionInput::Drawn(d) => (with_dirty(s, d), Seq::empty()),
        SessionInput::EndOfFrame => (SessionStateModel { frame_complete: true, ..s }, Seq::empty()),
        SessionInput::Tick { elapsed_ms } => {
            let requests = if s.frame_complete {
                seq![
                    SessionAction::Request(
                        spec_update_request(c.scale, c.x_offset, c.y_offset, c.width, c.height, c.fb_width, c.fb_height),
                    ),
                ]
            } else {
                Seq::empty()
            };
            let s1 = SessionStateModel { frame_complete: false, ..s };
            match spec_refresh_action(elapsed_ms, c.frame_ms, s.dirty_update_count, c.max_dirty_refreshes) {
                RefreshAction::Sleep(ms) => (s1, requests.push(SessionAction::Sleep(ms))),
                RefreshAction::Full => (
                    SessionStateModel { dirty_rects_since_refresh: Seq::empty(), dirty_update_count: 0, ..s1 },
                    requests.push(
                        SessionAction::Refresh {
                            rect: dirty_bounds(s.dirty_rects_since_refresh, c.fb_width as int, c.fb_height as int),
                            mode: c.full_update_mode,
                        },
                    ),
                ),
                RefreshAction::Partial => (
                    SessionStateModel {
                        dirty_rects: Seq::empty(),
                        dirty_update_count: (s.dirty_update_count + 1) as u64,
                        ..s1
                    },
                    requests.push(
                        SessionAction::Refresh {
                            rect: dirty_bounds(s.dirty_rects, c.fb_width as int, c.fb_height as int),
                            mode: c.partial_update_mode,
                        },
                    ),
                ),
            }
        },
        SessionInput::Disconnected => (s, seq![SessionAction::Stop]),
    }
}

/// Answering `input` stays within the range of every type.
pub open spec fn session_step_defined(
    s: SessionStateModel,
    input: SessionInput,
    p: Placement,
    c: SessionConfig,
) -> bool {
    match input {
        SessionInput::PutPixels(r) => !c.scale ==> view_fits(c) && (!put_out_of_view(r, c)
            ==> window_delta_defined(s.dirty_rects, r, put_window(r, c), p, c)),
        SessionInput::CopyPixels { src, dst } => !c.scale ==> view_fits(c) && match spec_copy_window(
            src,
            dst,
            c,
        ) {
            Some((_, dw)) => window_delta_defined(s.dirty_rects, dst, dw, p, c),
            None => true,
        },
        SessionInput::Drawn(d) => push_defined(s.dirty_rects, d),
        SessionInput::Tick { .. } => s.dirty_update_count < u64::MAX,
        _ => true,
    }
}

fn delta_of_window(r: VncRect, w: Window, p: &Placement, c: &SessionConfig) -> (d: Rectangle)
    requires
        unscaled_delta_defined(
            r.left as i32,
            r.top as i32,
            r.width as i32,
            r.height as i32,
            p.x_padding,
            p.y_padding,
            c.x_offset,
            c.y_offset,
            w.left_cut,
            w.top_cut,
            w.right_cut,
            w.bottom_cut,
        ),
    ensures
        d == window_delta(r, w, *p, *c),
{
    unscaled_delta_rect(
        r.left as i32,
        r.top as i32,
        r.width as i32,
        r.height as i32,
        p.x_padding,
        p.y_padding,
        c.x_offset,
        c.y_offset,
        w.left_cut,
        w.top_cut,
        w.right_cut,
        w.bottom_cut,
    )
}

/// Answers `input` as `spec_session_step` says, and returns what the caller is to do.
pub fn session_step(
    state: &mut SessionState,
    input: &SessionInput,
    p: &Placement,
    c: &SessionConfig,
) -> (actions: Vec<SessionAction>)
    requires
        session_step_defined(old(state)@, *input, *p, *c),
    ensures
        (final(state)@, actions@) == spec_session_step(old(state)@, *input, *p, *c),
{
    let mut actions: Vec<SessionAction> = Vec::new();
    match input {
        SessionInput::PutPixels(r) => {
            if c.scale {
                actions.push(SessionAction::DrawScaled(*r));
            } else if !out_of_view(
                r.left as u32,
                r.top as u32,
                r.width as u32,
                r.height as u32,
                c.width,
                c.height,
                c.fb_width,
                c.fb_height,
                c.x_offset,
                c.y_offset,
            ) {
                let w = if c.encoding {
                    mono_window(*r, c)
                } else {
                    pixel_window(r.left, r.top, r.width, r.height, c)
                };
                let d = delta_of_window(*r, w, p, c);
                push_to_dirty_rect_list(&mut state.dirty_rects, d);
                actions.push(SessionAction::DrawPixels { rect: *r, window: w });
            }
        },
        SessionInput::CopyPixels { src, dst } => {
            if c.scale {
                actions.push(SessionAction::CopyScaled { src: *src, dst: *dst });
            } else {
                match copy_window(*src, *dst, c) {
                    None => {},
                    Some((sw, dw)) => {
                        let d = delta_of_window(*dst, dw, p, c);
                        push_to_dirty_rect_list(&mut state.dirty_rects, d);
                        actions.push(
                            SessionAction::CopyRegion { src: *src, dst: *dst, src_window: sw, dst_window: dw },
                        );
                    },
                }
            }
        },
        SessionInput::Drawn(d) => {
            push_to_dirty_rect_list(&mut state.dirty_rects, *d);
        },
        SessionInput::EndOfFrame => {
            state.frame_complete = true;
        },
        SessionInput::Tick { elapsed_ms } => {
            if state.frame_complete {
                let request = update_request(
                    c.scale,
                    c.x_offset,
                    c.y_offset,
                    c.width,
                    c.height,
                    c.fb_width,
                    c.fb_height,
                );
                actions.push(SessionAction::Request(request));
            }
            state.frame_complete = false;
            let (action, count) = refresh_action(
                *elapsed_ms,
                c.frame_ms,
                state.dirty_update_count,
                c.max_dirty_refreshes,
            );
            match action {
                RefreshAction::Sleep(ms) => {
                    actions.push(SessionAction::Sleep(ms));
                },
                RefreshAction::Full => {
                    let union = dirty_union(&state.dirty_rects_since_refresh, c.fb_width, c.fb_height);
                    state.dirty_update_count = count;
                    state.dirty_rects_since_refresh.clear();
                    actions.push(SessionAction::Refresh { rect: union, mode: c.full_update_mode });
                },
                RefreshAction::Partial => {
                    let union = dirty_union(&state.dirty_rects, c.fb_width, c.fb_height);
                    state.dirty_update_count = count;
                    state.dirty_rects.clear();
                    actions.push(SessionAction::Refresh { rect: union, mode: c.partial_update_mode });
                },
            }
        },
        SessionInput::Disconnected => {
            actions.push(SessionAction::Stop);
        },
    }
    proof {
        let expected = spec_session_step(old(state)@, *input, *p, *c);
        assert(state@ == expected.0);
        assert(actions@ =~= expected.1);
    }
    actions
}

/// What is drawn gets refreshed: once a region was recorded as dirty, the next pass
/// that ends past the frame time with a partial refresh refreshes a rectangle that
/// holds it.
pub proof fn law_drawn_region_is_refreshed(
    s: SessionStateModel,
    d: Rectangle,
    p: Placement,
    c: SessionConfig,
    elapsed_ms: u64,
)
    requires
        elapsed_ms >= c.frame_ms,
        s.dirty_update_count <= c.max_dirty_refreshes,
    ensures
        ({
            let after = spec_session_step(s, SessionInput::Drawn(d), p, c).0;
            let refresh = spec_session_step(after, SessionInput::Tick { elapsed_ms }, p, c).1.last();
            refresh matches SessionAction::Refresh { rect, mode } && rect.spec_contains(d) && mode
                == c.partial_update_mode
        }),
{
    let after = spec_session_step(s, SessionInput::Drawn(d), p, c).0;
    let list = after.dirty_rects;
    law_push_keeps_every_region(s.dirty_rects, d, d);
    let j = choose|j: int| 0 <= j < list.len() && #[trigger] list[j].spec_contains(d);
    lemma_bounds_contain_each(list, c.fb_width as int, c.fb_height as int, j);
    lemma_contains_transitive(dirty_bounds(list, c.fb_width as int, c.fb_height as int), list[j], d);
}

/// After more than `max_dirty_refreshes` partial refreshes, the next refresh is full
/// and starts the count again; before that, each refresh is partial and adds one.
pub proof fn law_full_refresh_after_partials(s: SessionStateModel, p: Placement, c: SessionConfig, elapsed_ms: u64)
    requires
        elapsed_ms >= c.frame_ms,
        s.dirty_update_count < u64::MAX,
    ensures
        ({
            let (after, actions) = spec_session_step(s, SessionInput::Tick { elapsed_ms }, p, c);
            if s.dirty_update_count > c.max_dirty_refreshes {
                &&& actions.last() matches SessionAction::Refresh { mode, .. } && mode == c.full_update_mode
                &&& after.dirty_update_count == 0
            } else {
                &&& actions.last() matches SessionAction::Refresh { mode, .. } && mode == c.partial_update_mode
                &&& after.dirty_update_count == s.dirty_update_count + 1
                &&& after.dirty_rects.len() == 0
            }
        }),
{
}

/// Cropping keeps to the view: along an axis that is cropped, a rectangle that does
/// not start past the view's end has its drawn pixels `[first, end)` within the view
/// `[o, o + f)`, and never past its own size.
pub proof fn law_crop_keeps_to_the_view(start: int, n: int, o: int, f: int, k: int)
    requires
        0 <= start,
        0 <= n,
        0 <= o,
        0 <= f,
        start + n <= u32::MAX,
        f + o <= u32::MAX,
        start <= f + o,
    ensures
        spec_axis_crop(start, n, true, o, f).end <= n,
        spec_axis_crop(start, n, true, o, f).first <= k < spec_axis_crop(start, n, true, o, f).end
            ==> o <= start + k < o + f,
{
}

/// Only what lies in view is drawn: the rows and columns of the window of pixels that
/// a session draws at the remote screen's own size lie within the view on each cropped
/// axis, and within the rectangle on every axis.
pub proof fn law_drawn_pixels_lie_in_view(r: VncRect, c: SessionConfig, x: int, y: int)
    requires
        !c.encoding,
        view_fits(c),
        !put_out_of_view(r, c),
    ensures
        ({
            let w = put_window(r, c);
            &&& w.end_row <= r.height
            &&& w.end_col <= r.width
            &&& crops_rows(c) && w.first_row <= y < w.end_row ==> c.y_offset <= r.top + y < c.y_offset
                + c.fb_height
            &&& crops_cols(c) && w.first_col <= x < w.end_col ==> c.x_offset <= r.left + x < c.x_offset
                + c.fb_width
        }),
{
    if crops_rows(c) {
        law_crop_keeps_to_the_view(r.top as int, r.height as int, c.y_offset as int, c.fb_height as int, y);
    }
    if crops_cols(c) {
        law_crop_keeps_to_the_view(r.left as int, r.width as int, c.x_offset as int, c.fb_width as int, x);
    }
}

/// A copy reads and writes only what lies in view: on each cropped axis, the rows and
/// columns of both windows of a copy that is not dropped lie within the view.
pub proof fn law_copied_pixels_lie_in_view(src: VncRect, dst: VncRect, c: SessionConfig, x: int, y: int)
    requires
        view_fits(c),
        spec_copy_window(src, dst, c) is Some,
    ensures
        ({
            let (sw, dw) = spec_copy_window(src, dst, c).unwrap();
            &&& crops_rows(c) && sw.first_row <= y < sw.end_row ==> c.y_offset <= src.top + y
                < c.y_offset + c.fb_height
            &&& crops_cols(c) && sw.first_col <= x < sw.end_col ==> c.x_offset <= src.left + x
                < c.x_offset + c.fb_width
            &&& crops_rows(c) && dw.first_row <= y < dw.end_row ==> c.y_offset <= dst.top + y
                < c.y_offset + c.fb_height
            &&& crops_cols(c) && dw.first_col <= x < dw.end_col ==> c.x_offset <= dst.left + x
                < c.x_offset + c.fb_width
        }),
{
    if crops_rows(c) {
        law_crop_keeps_to_the_view(src.top as int, dst.height as int, c.y_offset as int, c.fb_height as int, y);
        law_crop_keeps_to_the_view(dst.top as int, dst.height as int, c.y_offset as int, c.fb_height as int, y);
    }
    if crops_cols(c) {
        law_crop_keeps_to_the_view(src.left as int, dst.width as int, c.x_offset as int, c.fb_width as int, x);
        law_crop_keeps_to_the_view(dst.left as int, dst.width as int, c.x_offset as int, c.fb_width as int, x);
    }
}

/// A copy is dropped exactly when, on an axis where the remote screen exceeds the
/// device's, its destination's span or its source's span (each the destination's size)
/// misses the view's span; a copy that is kept meets the view with both.
pub proof fn law_copy_dropped_when_missing_the_view(src: VncRect, dst: VncRect, c: SessionConfig)
    ensures
        ({
            let yo = c.y_offset as int;
            let xo = c.x_offset as int;
            let fh = c.fb_height as int;
            let fw = c.fb_width as int;
            let meets = |start: int, size: int, o: int, f: int| o <= start + size && start <= o + f;
            let rows_ok = meets(dst.top as int, dst.height as int, yo, fh) && meets(src.top as int, dst.height as int, yo, fh);
            let cols_ok = meets(dst.left as int, dst.width as int, xo, fw) && meets(src.left as int, dst.width as int, xo, fw);
            spec_copy_window(src, dst, c) is None <==> ((crops_rows(c) && !rows_ok) || (crops_cols(c) && !cols_ok))
        }),
{
}

/// Cropping draws everything of the rectangle that lies in view: along a cropped axis,
/// every pixel `k` of the rectangle that lies within the view `[o, o + f)` is within
/// `[first, end)`. The cuts mark where the rectangle crosses the view's edges: where it
/// straddles the view's start, `start_cut` is the pixel on that start; where it
/// straddles the view's end, `end_cut` is the pixel on that end and the drawing stops there.
pub proof fn law_crop_draws_all_in_view(start: int, n: int, o: int, f: int, k: int)
    requires
        0 <= start,
        0 <= n,
        0 <= o,
        0 < f,
        start + n <= u32::MAX,
        f + o <= u32::MAX,
    ensures
        ({
            let a = spec_axis_crop(start, n, true, o, f);
            &&& (0 <= k < n && o <= start + k < o + f ==> a.first <= k < a.end)
            &&& (start < o < start + n ==> a.start_cut == o - start)
            &&& (start <= o + f < start + n ==> a.end_cut == o + f - start && a.end == a.end_cut)
            &&& (o + f >= start + n ==> a.end == n && a.end_cut == 0)
            &&& (start >= o ==> a.first == 0 && a.start_cut == 0)
        }),
{
}

/// Without cropping, nothing is cut: every pixel of the rectangle is drawn.
pub proof fn law_no_crop_draws_all(start: int, n: int, o: int, f: int)
    requires
        0 <= n <= u32::MAX,
    ensures
        spec_axis_crop(start, n, false, o, f) == (AxisCrop { first: 0, end: n as u32, start_cut: 0, end_cut: 0 }),
{
}

/// The region a draw dirties is the drawn part of the rectangle moved onto the device:
/// with no cut, the rectangle itself shifted by the padding less the view's offset;
/// cuts at the start move its start by the cut, and a cut at the end puts its end there.
pub proof fn law_dirty_region_is_the_drawn_part(r: VncRect, w: Window, p: Placement, c: SessionConfig)
    requires
        w.left_cut <= 0x1000_0000,
        w.top_cut <= 0x1000_0000,
        w.right_cut <= 0x1000_0000,
        w.bottom_cut <= 0x1000_0000,
        p.x_padding <= 0x1000_0000,
        p.y_padding <= 0x1000_0000,
        c.x_offset <= 0x1000_0000,
        c.y_offset <= 0x1000_0000,
    ensures
        ({
            let d = window_delta(r, w, p, c);
            let dx = p.x_padding - c.x_offset;
            let dy = p.y_padding - c.y_offset;
            &&& d.min.x == r.left + w.left_cut + dx
            &&& d.min.y == r.top + w.top_cut + dy
            &&& d.max.x == r.left + (if w.right_cut > 0 { w.right_cut as int } else { r.width as int }) + dx
            &&& d.max.y == r.top + (if w.bottom_cut > 0 { w.bottom_cut as int } else { r.height as int }) + dy
        }),
{
}

} // verus!
