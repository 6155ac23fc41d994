use kiwi::capture::engine::GrabPlan;
use kiwi::capture::{Engine, Frame, Mat, MatExt};
use kiwi::types::base64_png::{encodable, frame_of_pixels, payload, prefixed};
use kiwi::types::{Base64PngExt, Point, Size};
use kiwi::Error;

fn numbered(width: u32, height: u32) -> Frame {
    let buffer: Vec<u8> = (0..(width * height * 4)).map(|i| (i % 251) as u8).collect();
    Frame::new(width, height, buffer)
}

#[test]
fn to_buffer_accepts_exact_and_longer_buffers() {
    let exact = numbered(3, 2);
    let grid = exact.to_buffer().unwrap();
    assert_eq!((grid.width, grid.height), (3, 2));
    assert_eq!(grid.buffer, exact.buffer);
    let mut longer = numbered(3, 2);
    longer.buffer.extend_from_slice(&[1, 2, 3]);
    let grid = longer.to_buffer().unwrap();
    assert_eq!(grid.buffer, exact.buffer);
}

#[test]
fn to_buffer_refuses_short_buffers() {
    let frame = Frame::new(3, 2, vec![0; 23]);
    assert_eq!(frame.to_buffer().unwrap_err(), Error::InvalidFrame);
    assert!(!frame.is_valid());
    assert!(Frame::new(0, 0, Vec::new()).is_valid());
    assert!(!Frame::new(0x8000_0000, 0, Vec::new()).is_valid());
}

#[test]
fn crop_takes_the_region() {
    let frame = numbered(5, 4);
    let part = frame.crop(Point::new(1, 2), Size::new(3, 2));
    assert_eq!((part.width, part.height), (3, 2));
    let mut expected = Vec::new();
    for y in 2..4u32 {
        for x in 1..4u32 {
            let at = (4 * (y * 5 + x)) as usize;
            expected.extend_from_slice(&frame.buffer[at..at + 4]);
        }
    }
    assert_eq!(part.buffer, expected);
}

#[test]
fn crop_is_cut_off_at_the_edges() {
    let frame = numbered(5, 4);
    let part = frame.crop(Point::new(3, 3), Size::new(10, 10));
    assert_eq!((part.width, part.height), (2, 1));
    assert_eq!(part.buffer, frame.buffer[4 * (3 * 5 + 3)..].to_vec());
    let none = frame.crop(Point::new(-1, 0), Size::new(3, 3));
    assert_eq!((none.width, none.height, none.buffer.len()), (0, 3, 0));
    let none = frame.crop(Point::new(6, 0), Size::new(3, 3));
    assert_eq!(none.width, 0);
    let edge = frame.crop(Point::new(5, 4), Size::new(3, 3));
    assert_eq!((edge.width, edge.height), (0, 0));
}

#[test]
fn to_mat_swaps_red_and_blue() {
    let frame = Frame::new(2, 1, vec![1, 2, 3, 4, 5, 6, 7, 8]);
    let mat = frame.to_mat();
    assert_eq!((mat.rows, mat.cols, mat.channels), (1, 2, 4));
    assert_eq!(mat.data, vec![3, 2, 1, 4, 7, 6, 5, 8]);
}

#[test]
fn mask_marks_transparent_pixels() {
    let frame = Frame::new(3, 1, vec![9, 9, 9, 0, 9, 9, 9, 1, 9, 9, 9, 255]);
    let mask = frame.mask();
    assert_eq!((mask.rows, mask.cols, mask.channels), (1, 3, 1));
    assert_eq!(mask.data, vec![0, 255, 255]);
}

#[test]
fn to_rgb_drops_opacity() {
    let frame = Frame::new(2, 1, vec![1, 2, 3, 4, 5, 6, 7, 8]);
    let rgb = frame.to_rgb();
    assert_eq!((rgb.rows, rgb.cols, rgb.channels), (1, 2, 3));
    assert_eq!(rgb.data, vec![1, 2, 3, 5, 6, 7]);
}

#[test]
fn mat_reads_back_as_frame() {
    let mat = Mat { rows: 1, cols: 2, channels: 4, data: vec![1, 2, 3, 4, 5, 6, 7, 8] };
    let frame = mat.to_buffer().unwrap();
    assert_eq!((frame.width, frame.height), (2, 1));
    assert_eq!(frame.buffer, mat.data);
    let gray = Mat { rows: 1, cols: 2, channels: 1, data: vec![1, 2] };
    assert_eq!(gray.to_buffer().unwrap_err(), Error::InvalidFrame);
    let short = Mat { rows: 1, cols: 2, channels: 4, data: vec![1, 2] };
    assert_eq!(short.to_buffer().unwrap_err(), Error::InvalidFrame);
}

#[test]
fn wire_image_round_trip() {
    let frame = numbered(7, 5);
    let text = frame.to_base64_png().unwrap();
    assert!(text.starts_with("data:image/png;base64,"));
    assert!(text.len() > 30);
    let back = text.to_frame().unwrap();
    assert_eq!((back.width, back.height), (7, 5));
    assert_eq!(back.buffer, frame.buffer);
    let grid = text.to_buffer().unwrap();
    assert_eq!(grid.buffer, frame.buffer);
    let mat = text.to_mat().unwrap();
    assert_eq!(mat.data, frame.to_mat().data);
}

#[test]
fn wire_image_without_prefix_is_read_too() {
    let frame = numbered(2, 2);
    let text = frame.to_base64_png().unwrap();
    let bare = text["data:image/png;base64,".len()..].to_string();
    let back = bare.to_frame().unwrap();
    assert_eq!(back.buffer, frame.buffer);
}

#[test]
fn wire_image_of_one_red_pixel_is_a_png() {
    let frame = Frame::new(1, 1, vec![255, 0, 0, 255]);
    let text = frame.to_base64_png().unwrap();
    // Every PNG starts with the same eight bytes, "iVBORw0KGgo" in base64.
    assert!(text.starts_with("data:image/png;base64,iVBORw0KGgo"));
}

#[test]
fn wire_image_refuses_bad_input() {
    assert_eq!(numbered(2, 2).buffer.len(), 16);
    let mut long = numbered(2, 2);
    long.buffer.push(0);
    assert_eq!(long.to_base64_png().unwrap_err(), Error::InvalidFrame);
    assert_eq!(String::from("data:image/png;base64,@@@").to_frame().unwrap_err(), Error::InvalidImage);
    assert_eq!(String::from("aGVsbG8=").to_frame().unwrap_err(), Error::InvalidImage);
}

#[test]
fn engine_starts_stopped_and_empty() {
    let engine = Engine::new();
    assert!(!engine.is_running());
    assert!(engine.get_frame().is_none());
    assert!(engine.get_frame_arc().is_none());
    assert_eq!(engine.grab_plan(), GrabPlan::Capture);
}

#[test]
fn engine_start_and_stop() {
    let mut engine = Engine::new();
    assert_eq!(engine.start(false), Err(Error::CaptureInitFailed));
    assert!(!engine.is_running());
    assert_eq!(engine.start(true), Ok(()));
    assert!(engine.is_running());
    assert_eq!(engine.grab_plan(), GrabPlan::UseCurrent);
    engine.stop();
    engine.stop();
    assert!(!engine.is_running());
    assert_eq!(engine.start_background(true), Ok(()));
    assert!(engine.is_running());
}

#[test]
fn engine_holds_only_the_current_frame() {
    let mut engine = Engine::new();
    engine.store_frame(numbered(2, 2));
    engine.store_frame(numbered(3, 1));
    let copy = engine.get_frame().unwrap();
    assert_eq!((copy.width, copy.height), (3, 1));
    assert_eq!(copy.buffer, numbered(3, 1).buffer);
    assert_eq!(engine.get_frame_arc().unwrap().buffer, copy.buffer);
    engine.clear_frame();
    assert!(engine.get_frame().is_none());
}

#[test]
fn engine_grab() {
    let mut engine = Engine::new();
    assert_eq!(engine.grab(None).unwrap_err(), Error::FrameUnavailable);
    assert_eq!(engine.grab(Some(numbered(1, 1))).unwrap().buffer, numbered(1, 1).buffer);
    engine.start(true).unwrap();
    assert_eq!(engine.grab(Some(numbered(1, 1))).unwrap_err(), Error::FrameUnavailable);
    engine.store_frame(numbered(2, 1));
    assert_eq!(engine.grab(Some(numbered(1, 1))).unwrap().buffer, numbered(2, 1).buffer);
}

#[test]
fn wire_prefix_is_added_and_taken_off() {
    assert_eq!(prefixed("QUJD"), "data:image/png;base64,QUJD");
    assert_eq!(payload("data:image/png;base64,QUJD"), "QUJD");
    assert_eq!(payload("QUJD"), "QUJD");
    assert_eq!(payload("data:image/png;base64,"), "");
    assert_eq!(payload("data:image/png;base64"), "data:image/png;base64");
    assert_eq!(payload("DATA:image/png;base64,QUJD"), "DATA:image/png;base64,QUJD");
    assert_eq!(payload(&prefixed("x")), "x");
}

#[test]
fn decoded_pixels_must_fit_their_dimensions() {
    let frame = frame_of_pixels(2, 1, vec![1, 2, 3, 4, 5, 6, 7, 8]).unwrap();
    assert_eq!((frame.width, frame.height, frame.buffer.len()), (2, 1, 8));
    assert_eq!(frame_of_pixels(2, 1, vec![0; 7]).unwrap_err(), Error::InvalidFrame);
    assert_eq!(frame_of_pixels(2, 1, vec![0; 9]).unwrap_err(), Error::InvalidFrame);
    assert!(encodable(&numbered(3, 3)));
    assert!(!encodable(&Frame::new(3, 3, vec![0; 37])));
}
