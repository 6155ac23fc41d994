use kiwi::capture::Frame;
use kiwi::types::{ColoredPoint, HexColorExt, Point, RgbColor, RgbOffset, Size};
use kiwi::Error;

fn uniform(width: u32, height: u32, color: (u8, u8, u8)) -> Frame {
    let mut buffer = Vec::new();
    for _ in 0..(width * height) {
        buffer.push(color.0);
        buffer.push(color.1);
        buffer.push(color.2);
        buffer.push(255);
    }
    Frame::new(width, height, buffer)
}

fn paint(frame: &mut Frame, x: u32, y: u32, color: (u8, u8, u8)) {
    let at = 4 * (y * frame.width + x) as usize;
    frame.buffer[at] = color.0;
    frame.buffer[at + 1] = color.1;
    frame.buffer[at + 2] = color.2;
}

#[test]
fn range_compare_inside_band_gives_delta() {
    let reference = RgbColor(100, 10, 250);
    let target = RgbColor(105, 8, 255);
    assert_eq!(
        reference.range_compare(RgbOffset::new(5, 2, 10), &target),
        Some((-5, 2, -5))
    );
}

#[test]
fn range_compare_outside_band_gives_nothing() {
    let reference = RgbColor(100, 10, 250);
    assert_eq!(reference.range_compare(RgbOffset::new(5, 2, 10), &RgbColor(106, 8, 255)), None);
    assert_eq!(reference.range_compare(RgbOffset::new(5, 2, 10), &RgbColor(100, 13, 250)), None);
}

#[test]
fn range_compare_band_saturates() {
    let reference = RgbColor(2, 254, 0);
    assert_eq!(
        reference.range_compare(RgbOffset::new(10, 10, 0), &RgbColor(0, 255, 0)),
        Some((2, -1, 0))
    );
}

#[test]
fn to_hex_is_lower_case() {
    assert_eq!(RgbColor(255, 0, 171).to_hex(), "#ff00ab");
    assert_eq!(RgbColor(0, 0, 0).to_hex(), "#000000");
    assert_eq!(RgbColor(1, 35, 69).to_hex(), "#012345");
}

#[test]
fn to_u32_packs_red_highest() {
    assert_eq!(RgbColor(0x12, 0x34, 0x56).to_u32(), 0x123456);
    assert_eq!(RgbColor(255, 255, 255).to_u32(), 0xffffff);
}

#[test]
fn hex_text_reads_back() {
    let text = String::from("#Ff00aB");
    assert_eq!(text.to_rgb(), RgbColor(255, 0, 171));
    assert_eq!(text.to_u32(), 0xff00ab);
    assert_eq!(kiwi::types::hex_color::parse_hex_color("#12345"), None);
    assert_eq!(kiwi::types::hex_color::parse_hex_color("123456#"), None);
    assert_eq!(kiwi::types::hex_color::parse_hex_color("#12345g"), None);
    assert_eq!(<String as HexColorExt>::empty(), "#000000");
}

#[test]
fn hex_round_trip_on_samples() {
    for color in [RgbColor(0, 0, 0), RgbColor(9, 10, 15), RgbColor(16, 160, 255)] {
        assert_eq!(kiwi::types::hex_color::parse_hex_color(&color.to_hex()), Some(color));
    }
}

#[test]
fn find_colors_two_colors_on_uniform_frame() {
    let mut frame = uniform(100, 100, (10, 10, 10));
    paint(&mut frame, 70, 20, (255, 0, 0));
    paint(&mut frame, 5, 60, (0, 0, 255));
    let colors = vec![String::from("#0000ff"), String::from("#ff0000")];
    let found = frame
        .find_colors(&colors, Point::new(0, 0), Size::new(100, 100), RgbOffset::new(0, 0, 0))
        .unwrap();
    assert_eq!(found.len(), 2);
    assert!(found.contains(&ColoredPoint::new(Point::new(70, 20), String::from("#ff0000"))));
    assert!(found.contains(&ColoredPoint::new(Point::new(5, 60), String::from("#0000ff"))));
    assert_eq!(found[0].point, Point::new(70, 20));
}

#[test]
fn find_colors_is_all_or_nothing() {
    let mut frame = uniform(20, 20, (10, 10, 10));
    paint(&mut frame, 3, 4, (255, 0, 0));
    let colors = vec![String::from("#ff0000"), String::from("#00ff00")];
    let found = frame
        .find_colors(&colors, Point::new(0, 0), Size::new(20, 20), RgbOffset::new(0, 0, 0))
        .unwrap();
    assert!(found.is_empty());
}

#[test]
fn find_colors_reports_first_match_in_region() {
    let mut frame = uniform(10, 10, (0, 0, 0));
    paint(&mut frame, 1, 1, (200, 0, 0));
    paint(&mut frame, 6, 5, (200, 0, 0));
    paint(&mut frame, 4, 7, (200, 0, 0));
    let colors = vec![String::from("#C80000")];
    let found = frame
        .find_colors(&colors, Point::new(3, 3), Size::new(7, 7), RgbOffset::new(0, 0, 0))
        .unwrap();
    assert_eq!(found, vec![ColoredPoint::new(Point::new(6, 5), String::from("#c80000"))]);
}

#[test]
fn find_colors_same_pixel_keeps_asking_order() {
    let mut frame = uniform(4, 4, (0, 0, 0));
    paint(&mut frame, 2, 1, (100, 100, 100));
    let colors = vec![String::from("#666666"), String::from("#646464"), String::from("#626262")];
    let found = frame
        .find_colors(&colors, Point::new(0, 0), Size::new(4, 4), RgbOffset::new(2, 2, 2))
        .unwrap();
    assert_eq!(
        found,
        vec![
            ColoredPoint::new(Point::new(2, 1), String::from("#666666")),
            ColoredPoint::new(Point::new(2, 1), String::from("#646464")),
            ColoredPoint::new(Point::new(2, 1), String::from("#626262")),
        ]
    );
}

#[test]
fn find_colors_refuses_short_buffer_and_bad_color() {
    let frame = Frame::new(4, 4, vec![0; 63]);
    let colors = vec![String::from("#000000")];
    assert_eq!(
        frame.find_colors(&colors, Point::new(0, 0), Size::new(4, 4), RgbOffset::new(0, 0, 0)),
        Err(Error::InvalidFrame)
    );
    let frame = uniform(4, 4, (0, 0, 0));
    let colors = vec![String::from("black")];
    assert_eq!(
        frame.find_colors(&colors, Point::new(0, 0), Size::new(4, 4), RgbOffset::new(0, 0, 0)),
        Err(Error::InvalidColor)
    );
}

#[test]
fn find_colors_outside_frame_finds_nothing() {
    let frame = uniform(4, 4, (7, 7, 7));
    let colors = vec![String::from("#070707")];
    let found = frame
        .find_colors(&colors, Point::new(-1, 0), Size::new(4, 4), RgbOffset::new(0, 0, 0))
        .unwrap();
    assert!(found.is_empty());
    let found = frame
        .find_colors(&colors, Point::new(3, 3), Size::new(40, 40), RgbOffset::new(0, 0, 0))
        .unwrap();
    assert_eq!(found, vec![ColoredPoint::new(Point::new(3, 3), String::from("#070707"))]);
}

#[test]
fn has_colors_tells_whether_the_search_can_be_made() {
    let frame = uniform(4, 4, (7, 7, 7));
    let colors = vec![String::from("#ffffff")];
    assert_eq!(
        frame.has_colors(&colors, Point::new(0, 0), Size::new(4, 4), RgbOffset::new(0, 0, 0)),
        Ok(true)
    );
    let frame = Frame::new(4, 4, vec![0; 3]);
    assert_eq!(
        frame.has_colors(&colors, Point::new(0, 0), Size::new(4, 4), RgbOffset::new(0, 0, 0)),
        Ok(false)
    );
}

#[test]
fn find_relative_colors_without_stars_is_single_color_search() {
    let mut frame = uniform(10, 10, (0, 0, 0));
    paint(&mut frame, 6, 5, (200, 3, 0));
    paint(&mut frame, 4, 7, (200, 0, 0));
    let offset = RgbOffset::new(0, 5, 0);
    let single = frame
        .find_colors(&[String::from("#C80000")], Point::new(0, 0), Size::new(10, 10), offset)
        .unwrap();
    let found = frame
        .find_relative_colors(
            String::from("#C80000"),
            Vec::new(),
            Point::new(0, 0),
            Size::new(10, 10),
            offset,
        )
        .unwrap();
    assert_eq!(found, Some(ColoredPoint::new(Point::new(6, 5), String::from("#c80000"))));
    assert_eq!(found, single.last().cloned());
    let nowhere = frame
        .find_relative_colors(
            String::from("#C80000"),
            Vec::new(),
            Point::new(0, 0),
            Size::new(4, 4),
            offset,
        )
        .unwrap();
    assert_eq!(nowhere, None);
}

#[test]
fn find_relative_colors_without_stars_refuses_as_find_colors_does() {
    let offset = RgbOffset::new(0, 0, 0);
    let bad = Frame::new(10, 10, Vec::new());
    assert_eq!(
        bad.find_colors(&[String::from("#C80000")], Point::new(0, 0), Size::new(10, 10), offset),
        Err(Error::InvalidFrame)
    );
    assert_eq!(
        bad.find_relative_colors(
            String::from("#C80000"),
            Vec::new(),
            Point::new(0, 0),
            Size::new(10, 10),
            offset
        ),
        Err(Error::InvalidFrame)
    );
    let frame = uniform(4, 4, (0, 0, 0));
    assert_eq!(
        frame.find_relative_colors(
            String::from("red"),
            Vec::new(),
            Point::new(0, 0),
            Size::new(4, 4),
            offset
        ),
        Err(Error::InvalidColor)
    );
}

#[test]
fn find_relative_colors_follows_color_drift() {
    let mut frame = uniform(12, 12, (0, 0, 0));
    // A decoy vertex whose star does not hold, then the real one.
    paint(&mut frame, 2, 2, (100, 100, 100));
    paint(&mut frame, 4, 3, (9, 9, 9));
    paint(&mut frame, 5, 6, (98, 101, 100));
    paint(&mut frame, 7, 7, (48, 51, 50));
    let stars = vec![ColoredPoint::new(Point::new(2, 1), String::from("#323232"))];
    let found = frame
        .find_relative_colors(
            String::from("#646464"),
            stars,
            Point::new(0, 0),
            Size::new(12, 12),
            RgbOffset::new(3, 3, 3),
        )
        .unwrap();
    // The frame shows the vertex (-2, +1, 0) off its colour: the star must be
    // off by the same, (48, 51, 50).
    assert_eq!(found, Some(ColoredPoint::new(Point::new(5, 6), String::from("#626564"))));
}

#[test]
fn find_relative_colors_tolerates_a_drift_of_the_whole_pattern() {
    let frame = Frame::new(2, 1, vec![110, 110, 110, 255, 60, 60, 60, 255]);
    let stars = vec![ColoredPoint::new(Point::new(1, 0), String::from("#323232"))];
    let found = frame
        .find_relative_colors(
            String::from("#646464"),
            stars.clone(),
            Point::new(0, 0),
            Size::new(2, 1),
            RgbOffset::new(10, 10, 10),
        )
        .unwrap();
    assert_eq!(found, Some(ColoredPoint::new(Point::new(0, 0), String::from("#6e6e6e"))));
    // A star that drifts the other way does not hold.
    let frame = Frame::new(2, 1, vec![110, 110, 110, 255, 40, 40, 40, 255]);
    let found = frame
        .find_relative_colors(
            String::from("#646464"),
            stars,
            Point::new(0, 0),
            Size::new(2, 1),
            RgbOffset::new(10, 10, 10),
        )
        .unwrap();
    assert_eq!(found, None);
}

#[test]
fn find_relative_colors_finds_a_pattern_whose_stars_lie_above_the_vertex() {
    // Green over red; the vertex is the red pixel, the star the green one.
    let frame = Frame::new(1, 2, vec![0, 255, 0, 255, 255, 0, 0, 255]);
    let stars = vec![ColoredPoint::new(Point::new(0, -1), String::from("#00ff00"))];
    let found = frame
        .find_relative_colors(
            String::from("#ff0000"),
            stars,
            Point::new(0, 0),
            Size::new(1, 2),
            RgbOffset::new(0, 0, 0),
        )
        .unwrap();
    assert_eq!(found, Some(ColoredPoint::new(Point::new(0, 1), String::from("#ff0000"))));
    let stars = vec![ColoredPoint::new(Point::new(0, -1), String::from("#0000ff"))];
    let found = frame
        .find_relative_colors(
            String::from("#ff0000"),
            stars,
            Point::new(0, 0),
            Size::new(1, 2),
            RgbOffset::new(0, 0, 0),
        )
        .unwrap();
    assert_eq!(found, None);
}

#[test]
fn find_relative_colors_star_outside_region_holds() {
    let mut frame = uniform(6, 6, (0, 0, 0));
    paint(&mut frame, 5, 2, (100, 100, 100));
    let stars = vec![ColoredPoint::new(Point::new(3, 1), String::from("#ffffff"))];
    let found = frame
        .find_relative_colors(
            String::from("#646464"),
            stars,
            Point::new(0, 0),
            Size::new(6, 6),
            RgbOffset::new(0, 0, 0),
        )
        .unwrap();
    assert_eq!(found, Some(ColoredPoint::new(Point::new(5, 2), String::from("#646464"))));
}

#[test]
fn find_relative_colors_stops_when_pattern_is_too_tall() {
    let mut frame = uniform(6, 6, (0, 0, 0));
    paint(&mut frame, 1, 4, (100, 100, 100));
    let stars = vec![ColoredPoint::new(Point::new(0, 3), String::from("#ffffff"))];
    let found = frame
        .find_relative_colors(
            String::from("#646464"),
            stars.clone(),
            Point::new(0, 0),
            Size::new(6, 6),
            RgbOffset::new(0, 0, 0),
        )
        .unwrap();
    assert_eq!(found, None);
    paint(&mut frame, 2, 3, (100, 100, 100));
    let found = frame
        .find_relative_colors(
            String::from("#646464"),
            stars,
            Point::new(0, 0),
            Size::new(6, 6),
            RgbOffset::new(0, 0, 0),
        )
        .unwrap();
    assert_eq!(found, Some(ColoredPoint::new(Point::new(2, 3), String::from("#646464"))));
}

#[test]
fn find_relative_colors_refuses_bad_input() {
    let frame = uniform(6, 6, (0, 0, 0));
    let stars = vec![ColoredPoint::new(Point::new(0, 1), String::from("white"))];
    assert_eq!(
        frame.find_relative_colors(
            String::from("#646464"),
            stars.clone(),
            Point::new(0, 0),
            Size::new(6, 6),
            RgbOffset::new(0, 0, 0)
        ),
        Err(Error::InvalidColor)
    );
    let short = Frame::new(6, 6, vec![0; 10]);
    assert_eq!(
        short.find_relative_colors(
            String::from("#646464"),
            stars,
            Point::new(0, 0),
            Size::new(6, 6),
            RgbOffset::new(0, 0, 0)
        ),
        Err(Error::InvalidFrame)
    );
}
