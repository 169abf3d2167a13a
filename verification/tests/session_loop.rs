use kobovnc::event_handling::VncCommand;
use kobovnc::geom::Rectangle;
use kobovnc::scaling::unscaled_placement;
use kobovnc::session::{
    copy_window, device_coord, mono_row_origin, session_step, source_coord, SessionAction, SessionConfig, SessionInput, SessionState, VncRect, Window,
};
use kobovnc::view::UpdateMode;

fn r(x0: i32, y0: i32, x1: i32, y1: i32) -> Rectangle {
    Rectangle::from_coords(x0, y0, x1, y1)
}

fn vr(left: u16, top: u16, width: u16, height: u16) -> VncRect {
    VncRect { left, top, width, height }
}

fn config(encoding: bool, scale: bool) -> SessionConfig {
    SessionConfig {
        width: 1000,
        height: 800,
        fb_width: 600,
        fb_height: 400,
        x_offset: 100,
        y_offset: 50,
        scale,
        encoding,
        frame_ms: 100,
        max_dirty_refreshes: 3,
        full_update_mode: UpdateMode::Full,
        partial_update_mode: UpdateMode::Partial,
    }
}

fn win(first_col: u32, end_col: u32, first_row: u32, end_row: u32, cuts: [u32; 4]) -> Window {
    Window {
        first_col,
        end_col,
        first_row,
        end_row,
        left_cut: cuts[0],
        top_cut: cuts[1],
        right_cut: cuts[2],
        bottom_cut: cuts[3],
    }
}

#[test]
fn pixels_across_the_view_start_are_cut_there() {
    let c = config(false, false);
    let p = unscaled_placement(1000, 800, 600, 400, 100, 50);
    let mut s = SessionState::new();
    let a = session_step(&mut s, &SessionInput::PutPixels(vr(50, 20, 100, 100)), &p, &c);
    let w = win(50, 100, 30, 100, [50, 30, 0, 0]);
    assert_eq!(a, vec![SessionAction::DrawPixels { rect: vr(50, 20, 100, 100), window: w }]);
    assert_eq!(s.dirty_rects, vec![r(0, 0, 50, 70)]);
}

#[test]
fn pixels_across_the_view_end_are_cut_there() {
    let c = config(false, false);
    let p = unscaled_placement(1000, 800, 600, 400, 100, 50);
    let mut s = SessionState::new();
    let a = session_step(&mut s, &SessionInput::PutPixels(vr(650, 420, 100, 100)), &p, &c);
    let w = win(0, 50, 0, 30, [0, 0, 50, 30]);
    assert_eq!(a, vec![SessionAction::DrawPixels { rect: vr(650, 420, 100, 100), window: w }]);
    assert_eq!(s.dirty_rects, vec![r(550, 370, 600, 400)]);
}

#[test]
fn pixels_out_of_view_are_dropped() {
    let c = config(false, false);
    let p = unscaled_placement(1000, 800, 600, 400, 100, 50);
    let mut s = SessionState::new();
    let a = session_step(&mut s, &SessionInput::PutPixels(vr(0, 500, 10, 10)), &p, &c);
    assert!(a.is_empty());
    assert!(s.dirty_rects.is_empty());
}

#[test]
fn one_bit_pixels_are_cut_a_byte_at_a_time() {
    let c = config(true, false);
    let p = unscaled_placement(1000, 800, 600, 400, 100, 50);
    let mut s = SessionState::new();
    let a = session_step(&mut s, &SessionInput::PutPixels(vr(92, 60, 40, 10)), &p, &c);
    let w = win(1, 40, 0, 10, [1, 0, 0, 0]);
    assert_eq!(a, vec![SessionAction::DrawPixels { rect: vr(92, 60, 40, 10), window: w }]);
    assert_eq!(s.dirty_rects, vec![r(-7, 10, 32, 20)]);
}

#[test]
fn scaled_pixels_are_left_to_the_caller() {
    let c = config(false, true);
    let p = unscaled_placement(1000, 800, 600, 400, 100, 50);
    let mut s = SessionState::new();
    let a = session_step(&mut s, &SessionInput::PutPixels(vr(1, 2, 3, 4)), &p, &c);
    assert_eq!(a, vec![SessionAction::DrawScaled(vr(1, 2, 3, 4))]);
    assert!(s.dirty_rects.is_empty());
    let a = session_step(&mut s, &SessionInput::Drawn(r(5, 5, 9, 9)), &p, &c);
    assert!(a.is_empty());
    assert_eq!(s.dirty_rects, vec![r(5, 5, 9, 9)]);
}

#[test]
fn copy_is_cropped_on_both_ends() {
    let c = config(false, false);
    let got = copy_window(vr(100, 50, 20, 20), vr(90, 40, 30, 30), &c);
    assert_eq!(got, Some((win(0, 30, 0, 30, [0, 0, 0, 0]), win(10, 30, 10, 30, [10, 10, 0, 0]))));
    assert_eq!(copy_window(vr(100, 50, 20, 20), vr(0, 460, 30, 30), &c), None);
    assert_eq!(copy_window(vr(100, 500, 20, 20), vr(100, 60, 30, 30), &c), None);
}

#[test]
fn copy_dirties_its_destination_in_view() {
    let c = config(false, false);
    let p = unscaled_placement(1000, 800, 600, 400, 100, 50);
    let mut s = SessionState::new();
    let input = SessionInput::CopyPixels { src: vr(100, 50, 20, 20), dst: vr(90, 40, 30, 30) };
    let a = session_step(&mut s, &input, &p, &c);
    assert_eq!(
        a,
        vec![SessionAction::CopyRegion {
            src: vr(100, 50, 20, 20),
            dst: vr(90, 40, 30, 30),
            src_window: win(0, 30, 0, 30, [0, 0, 0, 0]),
            dst_window: win(10, 30, 10, 30, [10, 10, 0, 0]),
        }]
    );
    assert_eq!(s.dirty_rects, vec![r(0, 0, 20, 20)]);
}

#[test]
fn end_of_frame_asks_for_the_next_and_waits_out_the_frame() {
    let c = config(false, false);
    let p = unscaled_placement(1000, 800, 600, 400, 100, 50);
    let mut s = SessionState::new();
    session_step(&mut s, &SessionInput::PutPixels(vr(50, 20, 100, 100)), &p, &c);
    assert!(session_step(&mut s, &SessionInput::EndOfFrame, &p, &c).is_empty());
    assert!(s.frame_complete);
    let a = session_step(&mut s, &SessionInput::Tick { elapsed_ms: 10 }, &p, &c);
    assert_eq!(
        a,
        vec![
            SessionAction::Request(VncCommand::RequestUpdate { left: 100, top: 50, width: 600, height: 400 }),
            SessionAction::Sleep(90),
        ]
    );
    assert!(!s.frame_complete);
    let a = session_step(&mut s, &SessionInput::Tick { elapsed_ms: 150 }, &p, &c);
    assert_eq!(a, vec![SessionAction::Refresh { rect: r(0, 0, 50, 70), mode: UpdateMode::Partial }]);
    assert!(s.dirty_rects.is_empty());
    assert_eq!(s.dirty_update_count, 1);
}

#[test]
fn refresh_turns_full_after_the_partial_ones() {
    let c = config(false, false);
    let p = unscaled_placement(1000, 800, 600, 400, 100, 50);
    let mut s = SessionState::new();
    for k in 1..=4u64 {
        let a = session_step(&mut s, &SessionInput::Tick { elapsed_ms: 100 }, &p, &c);
        assert!(matches!(a[0], SessionAction::Refresh { mode: UpdateMode::Partial, .. }));
        assert_eq!(s.dirty_update_count, k);
    }
    let a = session_step(&mut s, &SessionInput::Tick { elapsed_ms: 100 }, &p, &c);
    assert_eq!(a, vec![SessionAction::Refresh { rect: r(600, 400, 0, 0), mode: UpdateMode::Full }]);
    assert_eq!(s.dirty_update_count, 0);
}

#[test]
fn drawn_region_is_held_by_the_next_partial_refresh() {
    let c = config(false, true);
    let p = unscaled_placement(1000, 800, 600, 400, 100, 50);
    let mut s = SessionState::new();
    session_step(&mut s, &SessionInput::Drawn(r(10, 10, 20, 20)), &p, &c);
    session_step(&mut s, &SessionInput::Drawn(r(300, 200, 310, 220)), &p, &c);
    let a = session_step(&mut s, &SessionInput::Tick { elapsed_ms: 500 }, &p, &c);
    assert_eq!(a, vec![SessionAction::Refresh { rect: r(10, 10, 310, 220), mode: UpdateMode::Partial }]);
}

#[test]
fn lost_connection_stops_the_session() {
    let c = config(false, false);
    let p = unscaled_placement(1000, 800, 600, 400, 100, 50);
    let mut s = SessionState::new();
    assert_eq!(session_step(&mut s, &SessionInput::Disconnected, &p, &c), vec![SessionAction::Stop]);
}

#[test]
fn drawn_pixels_lie_in_view() {
    let c = config(false, false);
    let p = unscaled_placement(1000, 800, 600, 400, 100, 50);
    for rect in [vr(0, 0, 1000, 800), vr(90, 40, 30, 30), vr(650, 420, 100, 100), vr(699, 449, 5, 5)] {
        let mut s = SessionState::new();
        match session_step(&mut s, &SessionInput::PutPixels(rect), &p, &c)[0] {
            SessionAction::DrawPixels { window, .. } => {
                for y in window.first_row..window.end_row {
                    assert!(50 <= rect.top as u32 + y && (rect.top as u32 + y) < 450);
                }
                for x in window.first_col..window.end_col {
                    assert!(100 <= rect.left as u32 + x && (rect.left as u32 + x) < 700);
                }
                assert!(window.end_row <= rect.height as u32 && window.end_col <= rect.width as u32);
            }
            _ => panic!("the rectangle lies in view"),
        }
    }
}

#[test]
fn device_positions_take_off_the_offset_and_add_the_padding() {
    assert_eq!(device_coord(50, 60, 100, 7), Some(17));
    assert_eq!(device_coord(50, 40, 100, 7), None);
    assert_eq!(device_coord(10, u32::MAX, 0, 0), None);
    assert_eq!(device_coord(0, 10, 0, u32::MAX), None);
    assert_eq!(source_coord(50, 40, 100, 10), Some(0));
    assert_eq!(source_coord(50, 40, 100, 9), None);
    assert_eq!(source_coord(0, u32::MAX, 0, 1), None);
}

#[test]
fn one_bit_rows_start_at_the_cut() {
    assert_eq!(mono_row_origin(92, 60, 3, 0, 0, 100, 50, 1), Some((u32::MAX - 6, 13)));
    assert_eq!(mono_row_origin(200, 60, 0, 10, 20, 100, 50, 0), Some((110, 30)));
    assert_eq!(mono_row_origin(0, 0, 0, i32::MAX as u32, 0, 0, 0, 1), None);
}
