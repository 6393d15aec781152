//! Pixel-level compositing: mean colour, cropping, diagnostic composition
//! and rectangle fills.

use tree_migration::frame::{Color, Frame};

fn rgb(red: u8, green: u8, blue: u8) -> Color {
    Color { red, green, blue }
}

#[test]
fn mean_color_of_a_uniform_region_is_that_color() {
    let frame = Frame::filled(4, 3, rgb(10, 20, 30));
    assert_eq!(frame.mean_color(), rgb(10, 20, 30));
}

#[test]
fn mean_color_truncates_per_channel() {
    let frame = Frame { width: 2, height: 1, data: vec![0, 0, 0, 3, 3, 3] };
    assert_eq!(frame.mean_color(), rgb(1, 1, 1));
}

#[test]
fn filled_frame_has_requested_geometry_and_color() {
    let frame = Frame::filled(5, 2, rgb(7, 8, 9));
    assert_eq!(frame.width, 5);
    assert_eq!(frame.height, 2);
    assert_eq!(frame.data.len(), 3 * 5 * 2);
    assert_eq!(frame.get_chan(4, 1, 0), 7);
    assert_eq!(frame.get_chan(0, 0, 2), 9);
}

#[test]
fn crop_reads_the_requested_rectangle() {
    // 3x2 frame with pixel (x, y) holding value 10*y + x in every channel
    let mut frame = Frame::filled(3, 2, rgb(0, 0, 0));
    for y in 0..2u32 {
        for x in 0..3u32 {
            let v = (10 * y + x) as u8;
            frame.set_pixel(x, y, rgb(v, v, v));
        }
    }
    let region = frame.crop(1, 0, 2, 2);
    assert_eq!(region.width, 2);
    assert_eq!(region.height, 2);
    assert_eq!(region.get_chan(0, 0, 0), 1);
    assert_eq!(region.get_chan(1, 0, 0), 2);
    assert_eq!(region.get_chan(0, 1, 0), 11);
    assert_eq!(region.get_chan(1, 1, 0), 12);
}

#[test]
fn compose_diag_doubles_width_with_fill_left_and_copy_right() {
    let mut source = Frame::filled(2, 2, rgb(0, 0, 0));
    source.set_pixel(0, 0, rgb(1, 2, 3));
    source.set_pixel(1, 1, rgb(4, 5, 6));
    let composed = source.compose_diag(rgb(9, 9, 9));
    assert_eq!(composed.width, 4);
    assert_eq!(composed.height, 2);
    // left half: the fill colour
    assert_eq!(composed.get_chan(0, 0, 0), 9);
    assert_eq!(composed.get_chan(1, 1, 2), 9);
    // right half: the source, shifted by the source width
    assert_eq!(composed.get_chan(2, 0, 0), 1);
    assert_eq!(composed.get_chan(2, 0, 1), 2);
    assert_eq!(composed.get_chan(3, 1, 0), 4);
    assert_eq!(composed.get_chan(3, 1, 2), 6);
    assert_eq!(composed.get_chan(3, 0, 0), 0);
}

#[test]
fn fill_rect_clips_to_the_frame() {
    let mut frame = Frame::filled(4, 4, rgb(0, 0, 0));
    // anchored outside the frame: only the overlap is painted
    frame.fill_rect(-1, -1, 2, 2, rgb(50, 60, 70));
    assert_eq!(frame.get_chan(0, 0, 0), 50);
    assert_eq!(frame.get_chan(0, 0, 1), 60);
    assert_eq!(frame.get_chan(1, 0, 0), 0);
    assert_eq!(frame.get_chan(0, 1, 0), 0);
    assert_eq!(frame.get_chan(1, 1, 0), 0);
    // a rectangle past the far edge paints up to the edge only
    frame.fill_rect(3, 3, 10, 10, rgb(80, 81, 82));
    assert_eq!(frame.get_chan(3, 3, 0), 80);
    assert_eq!(frame.get_chan(2, 3, 0), 0);
    assert_eq!(frame.get_chan(3, 2, 0), 0);
}

#[test]
fn set_and_get_channels_round_trip() {
    let mut frame = Frame::filled(2, 2, rgb(0, 0, 0));
    frame.set_chan(1, 0, 1, 200);
    assert_eq!(frame.get_chan(1, 0, 1), 200);
    assert_eq!(frame.get_chan(1, 0, 0), 0);
    assert_eq!(frame.get_chan(1, 0, 2), 0);
    assert_eq!(frame.get_chan(0, 0, 1), 0);
}
