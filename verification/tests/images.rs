use kiwi::capture::{FindResult, Frame, ScoreSurface};
use kiwi::commands::frontend::frame::find_images;
use kiwi::types::{Point, Size, WeightPoint};
use kiwi::Error;

fn blank(width: usize, height: usize) -> Vec<Vec<u32>> {
    vec![vec![0; width]; height]
}

fn frame(width: u32, height: u32) -> Frame {
    Frame::new(width, height, vec![255; (width * height * 4) as usize])
}

fn wp(x: i32, y: i32, weight: u32) -> WeightPoint {
    WeightPoint::new(Point::new(x, y), weight)
}

#[test]
fn one_picks_the_first_maximum() {
    let mut rows = blank(4, 3);
    rows[2][1] = 900;
    rows[1][3] = 900;
    rows[0][0] = 100;
    let found = FindResult::new(Size::new(2, 2), ScoreSurface::new(rows)).one();
    assert_eq!(found, Ok(wp(3, 1, 900)));
}

#[test]
fn one_refuses_a_surface_that_is_no_rectangle() {
    let empty = FindResult::new(Size::new(1, 1), ScoreSurface::new(Vec::new()));
    assert_eq!(empty.one(), Err(Error::InvalidScores));
    let ragged = FindResult::new(Size::new(1, 1), ScoreSurface::new(vec![vec![1, 2], vec![3]]));
    assert_eq!(ragged.one(), Err(Error::InvalidScores));
    let hollow = FindResult::new(Size::new(1, 1), ScoreSurface::new(vec![Vec::new()]));
    assert_eq!(hollow.one(), Err(Error::InvalidScores));
}

#[test]
fn multiple_extracts_from_the_best_down() {
    let mut rows = blank(30, 30);
    rows[2][3] = 950;
    rows[20][5] = 990;
    rows[10][25] = 970;
    rows[11][26] = 960; // under the blanked area of (25, 10)
    rows[15][15] = 500; // below the threshold
    let mut result = FindResult::new(Size::new(4, 4), ScoreSurface::new(rows));
    let found = result.multiple(900).unwrap();
    assert_eq!(found, vec![wp(5, 20, 990), wp(25, 10, 970), wp(3, 2, 950)]);
    // The surface is left as blanked.
    assert_eq!(result.matched.rows[20][5], 0);
    assert_eq!(result.matched.rows[11][26], 0);
    assert_eq!(result.matched.rows[15][15], 500);
}

#[test]
fn multiple_keeps_one_detection_per_cell() {
    let mut rows = blank(20, 20);
    // Both in the cell (1, 1) of the 5x5 grid; the second is up and to the
    // left of the first, so that blanking does not reach it.
    rows[8][8] = 990;
    rows[6][6] = 980;
    let found = FindResult::new(Size::new(5, 5), ScoreSurface::new(rows)).multiple(900).unwrap();
    assert_eq!(found, vec![wp(8, 8, 990)]);
}

#[test]
fn multiple_may_keep_detections_closer_than_the_template() {
    // The later detection lies to the left of the earlier one, outside the
    // blanked area, and in another cell of the grid.
    let mut rows = blank(30, 4);
    rows[0][11] = 990;
    rows[0][9] = 980;
    let found = FindResult::new(Size::new(10, 10), ScoreSurface::new(rows)).multiple(900).unwrap();
    assert_eq!(found, vec![wp(11, 0, 990), wp(9, 0, 980)]);
}

#[test]
fn multiple_finds_nothing_below_the_threshold() {
    let mut rows = blank(5, 5);
    rows[1][1] = 899;
    let mut result = FindResult::new(Size::new(2, 2), ScoreSurface::new(rows.clone()));
    assert_eq!(result.multiple(900), Ok(Vec::new()));
    assert_eq!(result.matched.rows, rows);
}

#[test]
fn multiple_takes_equal_scores_in_reading_order() {
    let mut rows = blank(9, 9);
    rows[6][6] = 77;
    rows[0][3] = 77;
    rows[3][0] = 77;
    let found = FindResult::new(Size::new(3, 3), ScoreSurface::new(rows)).multiple(77).unwrap();
    assert_eq!(found, vec![wp(3, 0, 77), wp(0, 3, 77), wp(6, 6, 77)]);
}

#[test]
fn multiple_refuses_bad_input() {
    let rows = blank(3, 3);
    let mut ragged = FindResult::new(Size::new(1, 1), ScoreSurface::new(vec![vec![1], vec![]]));
    assert_eq!(ragged.multiple(1), Err(Error::InvalidScores));
    let mut empty_template = FindResult::new(Size::new(0, 1), ScoreSurface::new(rows.clone()));
    assert_eq!(empty_template.multiple(1), Err(Error::InvalidRegion));
    let mut zero = FindResult::new(Size::new(1, 1), ScoreSurface::new(rows));
    assert_eq!(zero.multiple(0), Err(Error::InvalidThreshold));
}

#[test]
fn find_image_template_larger_than_region_is_invalid_region() {
    let screen = frame(100, 100);
    let template = frame(20, 10);
    let scores = ScoreSurface::new(blank(1, 1));
    assert_eq!(
        screen.find_image(&template, Point::new(0, 0), Size::new(19, 50), 900, &scores),
        Err(Error::InvalidRegion)
    );
    assert_eq!(
        screen.find_image(&template, Point::new(0, 0), Size::new(50, 9), 900, &scores),
        Err(Error::InvalidRegion)
    );
    // The size is looked at before the frame's buffer.
    let broken = Frame::new(100, 100, Vec::new());
    assert_eq!(
        broken.find_image(&template, Point::new(0, 0), Size::new(19, 50), 900, &scores),
        Err(Error::InvalidRegion)
    );
    assert_eq!(
        broken.find_image(&template, Point::new(0, 0), Size::new(50, 50), 900, &scores),
        Err(Error::InvalidFrame)
    );
    assert_eq!(
        screen.find_images(&template, Point::new(0, 0), Size::new(19, 50), 900, scores),
        Err(Error::InvalidRegion)
    );
}

#[test]
fn find_image_region_cut_off_below_the_template_is_invalid_region() {
    let screen = frame(100, 100);
    let template = frame(20, 10);
    let scores = ScoreSurface::new(blank(1, 1));
    assert_eq!(
        screen.find_image(&template, Point::new(90, 0), Size::new(50, 50), 900, &scores),
        Err(Error::InvalidRegion)
    );
    assert_eq!(
        screen.find_image(&template, Point::new(-1, 0), Size::new(50, 50), 900, &scores),
        Err(Error::InvalidRegion)
    );
    let empty = Frame::new(0, 5, Vec::new());
    assert_eq!(
        screen.find_image(&empty, Point::new(0, 0), Size::new(50, 50), 900, &scores),
        Err(Error::InvalidRegion)
    );
}

#[test]
fn find_image_gives_the_best_place_on_the_frame() {
    let screen = frame(100, 100);
    let template = frame(20, 10);
    // A region of 50x40 leaves 31x31 positions.
    let mut rows = blank(31, 31);
    rows[7][12] = 995;
    rows[30][30] = 995;
    rows[3][3] = 400;
    let scores = ScoreSurface::new(rows);
    let found = screen
        .find_image(&template, Point::new(10, 20), Size::new(50, 40), 990, &scores)
        .unwrap();
    assert_eq!(found, Some(wp(22, 27, 995)));
    let none = screen
        .find_image(&template, Point::new(10, 20), Size::new(50, 40), 996, &scores)
        .unwrap();
    assert_eq!(none, None);
    let at_threshold = screen
        .find_image(&template, Point::new(10, 20), Size::new(50, 40), 995, &scores)
        .unwrap();
    assert_eq!(at_threshold, Some(wp(22, 27, 995)));
}

#[test]
fn find_image_wants_one_score_per_position() {
    let screen = frame(100, 100);
    let template = frame(20, 10);
    let scores = ScoreSurface::new(blank(31, 30));
    assert_eq!(
        screen.find_image(&template, Point::new(10, 20), Size::new(50, 40), 990, &scores),
        Err(Error::InvalidScores)
    );
    // At the frame's edge the region is cut off: 15x40 leaves no room across.
    let scores = ScoreSurface::new(blank(1, 31));
    assert_eq!(
        screen.find_image(&template, Point::new(80, 20), Size::new(50, 40), 990, &scores),
        Ok(None)
    );
}

#[test]
fn find_images_gives_every_place_on_the_frame() {
    let screen = frame(100, 100);
    let template = frame(20, 10);
    let mut rows = blank(31, 31);
    rows[7][12] = 995;
    rows[8][13] = 994;
    rows[25][2] = 999;
    rows[3][3] = 400;
    let found = screen
        .find_images(&template, Point::new(10, 20), Size::new(50, 40), 990, ScoreSurface::new(rows.clone()))
        .unwrap();
    assert_eq!(found, vec![wp(12, 45, 999), wp(22, 27, 995)]);
    assert_eq!(
        screen.find_images(&template, Point::new(10, 20), Size::new(50, 40), 0, ScoreSurface::new(rows)),
        Err(Error::InvalidThreshold)
    );
}

#[test]
fn match_input_prepares_region_template_and_mask() {
    let mut screen = Frame::new(3, 2, (0..24).collect());
    screen.buffer.push(99);
    let template = Frame::new(1, 2, vec![10, 20, 30, 0, 40, 50, 60, 255]);
    let input = screen.match_input(&template, Point::new(1, 0), Size::new(2, 2)).unwrap();
    assert_eq!((input.image.rows, input.image.cols, input.image.channels), (2, 2, 4));
    assert_eq!(
        input.image.data,
        vec![6, 5, 4, 7, 10, 9, 8, 11, 18, 17, 16, 19, 22, 21, 20, 23]
    );
    assert_eq!(input.template.data, vec![30, 20, 10, 0, 60, 50, 40, 255]);
    assert_eq!((input.mask.rows, input.mask.cols, input.mask.channels), (2, 1, 1));
    assert_eq!(input.mask.data, vec![0, 255]);
    assert_eq!(
        screen.match_input(&template, Point::new(1, 0), Size::new(2, 1)).unwrap_err(),
        Error::InvalidRegion
    );
}

#[test]
fn ui_find_images_gives_no_two_places_closer_than_the_template() {
    let origin = frame(40, 10).to_base64_png().unwrap();
    let template = frame(10, 10).to_base64_png().unwrap();
    // 31 positions across, one down; two peaks two pixels apart.
    let mut rows = blank(31, 1);
    rows[0][11] = 990;
    rows[0][9] = 980;
    rows[0][25] = 970;
    let found = find_images(
        &origin,
        &template,
        Size::new(10, 10),
        Point::new(0, 0),
        Point::new(40, 10),
        900,
        ScoreSurface::new(rows),
    )
    .unwrap();
    assert_eq!(found, vec![wp(11, 0, 990), wp(25, 0, 970)]);
    for (i, a) in found.iter().enumerate() {
        for b in found.iter().skip(i + 1) {
            assert!(!a.point.is_too_close(&b.point, &Size::new(10, 10)));
        }
    }
}

#[test]
fn ui_find_images_reports_failures_in_words() {
    let origin = frame(40, 10).to_base64_png().unwrap();
    let template = frame(10, 10).to_base64_png().unwrap();
    let failed = find_images(
        &origin,
        &template,
        Size::new(10, 10),
        Point::new(0, 0),
        Point::new(0, 10),
        900,
        ScoreSurface::new(blank(31, 1)),
    )
    .unwrap_err();
    assert_eq!(failed.message(), "The template size exceeds the cropped frame size.");
    let failed = find_images(
        &String::from("no image"),
        &template,
        Size::new(10, 10),
        Point::new(0, 0),
        Point::new(40, 10),
        900,
        ScoreSurface::new(blank(31, 1)),
    )
    .unwrap_err();
    assert_eq!(failed.message(), "Failed to convert the image.");
}
