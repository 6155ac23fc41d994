use kiwi::types::limited_queue::LimitedQueue;
use kiwi::types::{Point, Progress, Size, SizeError, WeightPoint, WeightPointsExt};

#[test]
fn point_new_keeps_coordinates() {
    let p = Point::new(-3, 7);
    assert_eq!((p.x, p.y), (-3, 7));
}

#[test]
fn is_too_close_needs_both_axes() {
    let size = Size::new(10, 5);
    let origin = Point::new(100, 100);
    assert!(origin.is_too_close(&Point::new(109, 104), &size));
    assert!(origin.is_too_close(&Point::new(91, 96), &size));
    assert!(!origin.is_too_close(&Point::new(110, 100), &size));
    assert!(!origin.is_too_close(&Point::new(100, 105), &size));
    assert!(origin.is_too_close(&origin, &size));
}

#[test]
fn is_too_close_with_empty_size_is_never_true() {
    let origin = Point::new(1, 1);
    assert!(!origin.is_too_close(&origin, &Size::new(0, 9)));
    assert!(!origin.is_too_close(&origin, &Size::new(9, 0)));
}

#[test]
fn is_too_close_does_not_wrap_around() {
    let far_left = Point::new(i32::MIN, 0);
    let far_right = Point::new(i32::MAX, 0);
    assert!(!far_left.is_too_close(&far_right, &Size::new(u32::MAX, 1)));
    assert!(far_left.is_too_close(&Point::new(i32::MIN + 5, 0), &Size::new(6, 1)));
    assert_eq!(
        far_left.is_too_close(&far_right, &Size::new(u32::MAX, 1)),
        far_right.is_too_close(&far_left, &Size::new(u32::MAX, 1))
    );
}

#[test]
fn size_from_corners() {
    assert_eq!(
        Size::new_from_start_end_points(Point::new(2, 3), Point::new(12, 8)),
        Ok(Size::new(10, 5))
    );
    assert_eq!(
        Size::new_from_start_end_points(Point::new(-5, -5), Point::new(5, 5)),
        Ok(Size::new(10, 10))
    );
}

#[test]
fn size_from_corners_refuses_empty_regions() {
    assert_eq!(
        Size::new_from_start_end_points(Point::new(2, 3), Point::new(2, 8)),
        Err(SizeError::WidthNotPositive)
    );
    assert_eq!(
        Size::new_from_start_end_points(Point::new(2, 3), Point::new(12, 3)),
        Err(SizeError::HeightNotPositive)
    );
    assert_eq!(
        Size::new_from_start_end_points(Point::new(5, 5), Point::new(1, 1)),
        Err(SizeError::WidthNotPositive)
    );
}

#[test]
fn size_from_far_corners_does_not_overflow() {
    assert_eq!(
        Size::new_from_start_end_points(Point::new(i32::MIN, i32::MIN), Point::new(i32::MAX, 0)),
        Ok(Size::new(u32::MAX, 0x8000_0000))
    );
}

#[test]
fn limited_queue_drops_the_oldest() {
    let mut queue: LimitedQueue<u32> = LimitedQueue::new(3);
    for item in 1..=5 {
        queue.push(item);
    }
    assert_eq!(queue.len(), 3);
    assert_eq!(queue.get(0), Some(&3));
    assert_eq!(queue.get(1), Some(&4));
    assert_eq!(queue.get(2), Some(&5));
    assert_eq!(queue.get(3), None);
}

#[test]
fn limited_queue_below_its_limit_keeps_everything() {
    let mut queue: LimitedQueue<&str> = LimitedQueue::new(4);
    assert_eq!(queue.get(0), None);
    queue.push("a");
    queue.push("b");
    assert_eq!(queue.len(), 2);
    assert_eq!(queue.get(0), Some(&"a"));
    assert_eq!(queue.get(1), Some(&"b"));
}

#[test]
fn limited_queue_of_zero_holds_the_newest() {
    let mut queue: LimitedQueue<u8> = LimitedQueue::new(0);
    queue.push(1);
    queue.push(2);
    assert_eq!(queue.len(), 1);
    assert_eq!(queue.get(0), Some(&2));
}

#[test]
fn progress_stages() {
    assert_eq!(Progress::start(), Progress::new(0, String::from("start")));
    assert_eq!(Progress::update(42), Progress::new(42, String::from("running")));
    assert_eq!(Progress::finished(), Progress::new(100, String::from("finished")));
    assert_eq!(Progress::default(), Progress::start());
}

fn wp(x: i32, y: i32, weight: u32) -> WeightPoint {
    WeightPoint::new(Point::new(x, y), weight)
}

#[test]
fn sorted_by_weight_is_stable_and_descending() {
    let points = vec![wp(0, 0, 5), wp(1, 0, 9), wp(2, 0, 5), wp(3, 0, 7)];
    let sorted = kiwi::types::weight_point::sorted_by_weight(&points);
    assert_eq!(sorted, vec![wp(1, 0, 9), wp(3, 0, 7), wp(0, 0, 5), wp(2, 0, 5)]);
}

#[test]
fn filter_close_points_keeps_the_best_of_each_cluster() {
    let points = vec![
        wp(10, 10, 900),
        wp(12, 11, 950),
        wp(50, 50, 800),
        wp(58, 50, 990),
        wp(11, 30, 700),
    ];
    let kept = points.filter_close_points(&Size::new(10, 10));
    assert_eq!(kept, vec![wp(58, 50, 990), wp(12, 11, 950), wp(11, 30, 700)]);
}

#[test]
fn filter_close_points_leaves_no_close_pair() {
    let points: Vec<WeightPoint> =
        (0..40).map(|i| wp((i * 7) % 31, (i * 13) % 29, 1000 - i as u32)).collect();
    let size = Size::new(6, 6);
    let kept = points.filter_close_points(&size);
    for (i, a) in kept.iter().enumerate() {
        assert!(points.contains(a));
        for b in kept.iter().skip(i + 1) {
            assert!(!a.point.is_too_close(&b.point, &size));
            assert!(a.weight >= b.weight);
        }
    }
    for p in &points {
        assert!(kept
            .iter()
            .any(|k| k.weight >= p.weight && (k == p || p.point.is_too_close(&k.point, &size))));
    }
}

#[test]
fn filter_close_points_with_empty_template_keeps_all() {
    let points = vec![wp(1, 1, 1), wp(1, 1, 2), wp(1, 1, 3)];
    let kept = points.filter_close_points(&Size::new(0, 0));
    assert_eq!(kept, vec![wp(1, 1, 3), wp(1, 1, 2), wp(1, 1, 1)]);
}
