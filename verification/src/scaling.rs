//! Where the remote screen's image lies on the device's screen when it is shown at
//! its own size: centred when it is smaller, cropped to the view when it is larger.
use vstd::prelude::*;
use crate::geom::{Point, Rectangle, i32_fits, rect_of};

verus! {

/// The placement of the remote screen's image on the device's screen: its padding,
/// the device's screen, the part of the remote screen in view, the remote screen, and
/// the region the image covers once scaled.
#[derive(Clone, Copy, Debug, PartialEq, Eq, Structural)]
pub struct Placement {
    pub x_padding: u32,
    pub y_padding: u32,
    pub device_fb_rect: Rectangle,
    pub cropped_vnc_fb_rect: Rectangle,
    pub original_vnc_fb_rect: Rectangle,
    pub scaled_fb_rect: Rectangle,
}

/// The placement before any fitting: no padding, the view at the origin, and the
/// image at its own size.
pub open spec fn initial(width: u16, height: u16, fb_width: u32, fb_height: u32) -> Placement {
    Placement {
        x_padding: 0,
        y_padding: 0,
        device_fb_rect: rect_of(0, 0, (fb_width as i32) as int, (fb_height as i32) as int),
        cropped_vnc_fb_rect: rect_of(0, 0, (fb_width as i32) as int, (fb_height as i32) as int),
        original_vnc_fb_rect: rect_of(0, 0, width as int, height as int),
        scaled_fb_rect: rect_of(0, 0, width as int, height as int),
    }
}

/// The placement before any fitting.
pub fn initial_placement(width: u16, height: u16, fb_width: u32, fb_height: u32) -> (p: Placement)
    ensures
        p == initial(width, height, fb_width, fb_height),
{
    let fw = fb_width as i32;
    let fh = fb_height as i32;
    Placement {
        x_padding: 0,
        y_padding: 0,
        device_fb_rect: Rectangle::from_coords(0, 0, fw, fh),
        cropped_vnc_fb_rect: Rectangle::from_coords(0, 0, fw, fh),
        original_vnc_fb_rect: Rectangle::from_coords(0, 0, width as i32, height as i32),
        scaled_fb_rect: Rectangle::from_coords(0, 0, width as i32, height as i32),
    }
}

/// Half of the room that the device's side `fb` leaves around the remote side `side`,
/// when the remote side is shorter than the device's read as 16 bits.
pub open spec fn centring_padding(side: u16, fb: u32) -> u32 {
    if side < (fb as u16) {
        ((fb - side) / 2) as u32
    } else {
        0
    }
}

/// The remote screen exceeds the device's on some side (the device's sides read as 16 bits).
pub open spec fn exceeds(width: u16, height: u16, fb_width: u32, fb_height: u32) -> bool {
    width > (fb_width as u16) || height > (fb_height as u16)
}

/// The placement of the remote screen at its own size: centred on each side where it
/// is smaller than the device's screen; when it is larger on some side, the part in
/// view is the device's screen shifted by the padding and by the offset of the view.
pub open spec fn unscaled(
    width: u16,
    height: u16,
    fb_width: u32,
    fb_height: u32,
    x_offset: u32,
    y_offset: u32,
) -> Placement {
    let x_padding = centring_padding(width, fb_width);
    let y_padding = centring_padding(height, fb_height);
    let base = initial(width, height, fb_width, fb_height);
    let left = (x_padding as i32) + (x_offset as i32);
    let top = (y_padding as i32) + (y_offset as i32);
    Placement {
        x_padding,
        y_padding,
        cropped_vnc_fb_rect: if exceeds(width, height, fb_width, fb_height) {
            rect_of(left, top, (fb_width as i32) + left, (fb_height as i32) + top)
        } else {
            base.cropped_vnc_fb_rect
        },
        ..base
    }
}

/// The sums of the cropped region stay within the range of an `i32`.
pub open spec fn unscaled_defined(
    width: u16,
    height: u16,
    fb_width: u32,
    fb_height: u32,
    x_offset: u32,
    y_offset: u32,
) -> bool {
    let x_padding = centring_padding(width, fb_width);
    let y_padding = centring_padding(height, fb_height);
    exceeds(width, height, fb_width, fb_height) ==> {
        &&& i32_fits((fb_width as i32) + (x_padding as i32))
        &&& i32_fits((fb_width as i32) + (x_padding as i32) + (x_offset as i32))
        &&& i32_fits((x_padding as i32) + (x_offset as i32))
        &&& i32_fits((fb_height as i32) + (y_padding as i32))
        &&& i32_fits((fb_height as i32) + (y_padding as i32) + (y_offset as i32))
        &&& i32_fits((y_padding as i32) + (y_offset as i32))
    }
}

/// Places the remote screen of size `width` x `height` at its own size on a device's
/// screen of size `fb_width` x `fb_height`, with the view at `(x_offset, y_offset)`.
pub fn unscaled_placement(
    width: u16,
    height: u16,
    fb_width: u32,
    fb_height: u32,
    x_offset: u32,
    y_offset: u32,
) -> (p: Placement)
    requires
        unscaled_defined(width, height, fb_width, fb_height, x_offset, y_offset),
    ensures
        p == unscaled(width, height, fb_width, fb_height, x_offset, y_offset),
{
    let mut p = initial_placement(width, height, fb_width, fb_height);
    if width < fb_width as u16 {
        p.x_padding = (fb_width - width as u32) / 2;
    }
    if height < fb_height as u16 {
        p.y_padding = (fb_height - height as u32) / 2;
    }
    let x_padding = p.x_padding;
    let y_padding = p.y_padding;
    if width > fb_width as u16 {
        p.cropped_vnc_fb_rect = Rectangle::from_coords(
            0 + x_padding as i32 + x_offset as i32,
            0 + y_padding as i32 + y_offset as i32,
            fb_width as i32 + x_padding as i32 + x_offset as i32,
            fb_height as i32 + y_padding as i32 + y_offset as i32,
        );
    } else if height > fb_height as u16 {
        p.cropped_vnc_fb_rect = Rectangle::from_coords(
            0 + x_padding as i32 + x_offset as i32,
            0 + y_padding as i32 + y_offset as i32,
            fb_width as i32 + x_padding as i32 + x_offset as i32,
            fb_height as i32 + y_padding as i32 + y_offset as i32,
        );
    }
    p
}

/// A remote screen no larger than the device's, within 16 bits, is centred: the room
/// left on each side is split in two halves that differ by at most one pixel.
pub proof fn law_unscaled_centres(width: u16, height: u16, fb_width: u32, fb_height: u32, x_offset: u32, y_offset: u32)
    requires
        fb_width <= u16::MAX,
        fb_height <= u16::MAX,
        width <= fb_width,
        height <= fb_height,
    ensures
        ({
            let p = unscaled(width, height, fb_width, fb_height, x_offset, y_offset);
            &&& 0 <= fb_width - width - 2 * p.x_padding <= 1
            &&& 0 <= fb_height - height - 2 * p.y_padding <= 1
            &&& p.cropped_vnc_fb_rect == p.device_fb_rect
        }),
{
}

/// Moving the view moves only the part in view: at offsets further by `(dx, dy)`, the
/// paddings, the device's screen, the remote screen and the scaled image stay as they
/// are, and the part in view, when the remote screen exceeds the device's, is shifted
/// by `(dx, dy)`.
pub proof fn law_offset_moves_only_the_view(
    width: u16,
    height: u16,
    fb_width: u32,
    fb_height: u32,
    x_offset: u32,
    y_offset: u32,
    dx: u32,
    dy: u32,
)
    requires
        fb_width <= u16::MAX,
        fb_height <= u16::MAX,
        x_offset + dx < 0x4000_0000,
        y_offset + dy < 0x4000_0000,
    ensures
        ({
            let a = unscaled(width, height, fb_width, fb_height, x_offset, y_offset);
            let b = unscaled(width, height, fb_width, fb_height, (x_offset + dx) as u32, (y_offset + dy) as u32);
            &&& b.x_padding == a.x_padding
            &&& b.y_padding == a.y_padding
            &&& b.device_fb_rect == a.device_fb_rect
            &&& b.original_vnc_fb_rect == a.original_vnc_fb_rect
            &&& b.scaled_fb_rect == a.scaled_fb_rect
            &&& b.cropped_vnc_fb_rect == if exceeds(width, height, fb_width, fb_height) {
                rect_of(
                    a.cropped_vnc_fb_rect.min.x + dx,
                    a.cropped_vnc_fb_rect.min.y + dy,
                    a.cropped_vnc_fb_rect.max.x + dx,
                    a.cropped_vnc_fb_rect.max.y + dy,
                )
            } else {
                a.cropped_vnc_fb_rect
            }
        }),
{
}

} // verus!
