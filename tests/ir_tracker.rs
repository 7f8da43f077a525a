use hamilton::ir_tracker_localiser::{IrTrackers, Point2};

fn create_ir_points(points: Vec<Point2>, height: i64, width: i64) -> IrTrackers {
    IrTrackers::new(points, height, width)
}

/// Pixels to the frame's milli-pixels.
fn px(v: f64) -> i64 {
    (v * 1000.0).round() as i64
}

fn pattern() -> Vec<Point2> {
    vec![
        Point2::new(px(500.0), px(496.0)),
        Point2::new(px(500.0), px(504.0)),
        Point2::new(px(506.928), px(500.0)),
        Point2::new(px(502.309), px(520.0)),
    ]
}

#[test]
fn ir_tracker_orientation() {
    // width is actually X here
    // images are x right, y down
    let points = create_ir_points(pattern(), px(1000.0), px(1000.0));
    let pose = points.find_tracker_pose();
    assert!(pose.is_some());
    let pose = pose.unwrap();
    let degrees = (pose.rotation() as f64 / 1e6).to_degrees();
    assert!(degrees.abs() <= 0.01);
    let (x, y) = pose.position();
    assert!(((x as f64 / 1e6) - 0.5).abs() <= 0.001);
    assert!(((y as f64 / 1e6) - 0.439).abs() <= 0.001);
}

#[test]
fn ir_tracker_exact_pose() {
    let pose = create_ir_points(pattern(), px(1000.0), px(1000.0)).find_tracker_pose().unwrap();
    assert_eq!(pose.position(), (500_000, 439_691));
    assert_eq!(pose.rotation(), 0);
}

#[test]
fn ir_tracker_fewer_than_four_points() {
    let mut points = pattern();
    points.truncate(3);
    let frame = create_ir_points(points, px(1000.0), px(1000.0));
    assert!(frame.find_tracker_pose().is_none());
}

#[test]
fn ir_tracker_declared_count_below_four() {
    let mut frame = create_ir_points(pattern(), px(1000.0), px(1000.0));
    frame.point_count = 3;
    assert!(frame.find_tracker_pose().is_none());
}

#[test]
fn ir_tracker_spread_markers_give_nothing() {
    let points = vec![
        Point2::new(px(100.0), px(100.0)),
        Point2::new(px(300.0), px(100.0)),
        Point2::new(px(100.0), px(300.0)),
        Point2::new(px(300.0), px(300.0)),
    ];
    let frame = create_ir_points(points, px(1000.0), px(1000.0));
    assert!(frame.find_tracker_pose().is_none());
}

#[test]
fn ir_tracker_point_outside_frame() {
    // a point outside the image takes part like any other
    let mut points = pattern();
    points.push(Point2::new(px(1200.0), px(-10.0)));
    let frame = create_ir_points(points, px(1000.0), px(1000.0));
    assert_eq!(frame.find_tracker_pose().map(|p| p.position()), Some((500_000, 439_691)));
}

#[test]
fn ir_tracker_coordinate_beyond_limit() {
    let mut points = pattern();
    points.push(Point2::new(i64::MAX, 0));
    let frame = create_ir_points(points, px(1000.0), px(1000.0));
    assert!(frame.find_tracker_pose().is_none());
}

#[test]
fn ir_tracker_heading_marker_must_be_strictly_farther() {
    // the last three are each 0.019 from the first: no heading marker is
    // strictly farther than the two triangle markers
    let points = vec![
        Point2::new(px(500.0), px(500.0)),
        Point2::new(px(519.0), px(500.0)),
        Point2::new(px(500.0), px(519.0)),
        Point2::new(px(481.0), px(500.0)),
    ];
    let frame = create_ir_points(points, px(1000.0), px(1000.0));
    assert!(frame.find_tracker_pose().is_none());
}

#[test]
fn ir_tracker_heading_quarter_turn() {
    // the heading marker to the right of the triangle
    let points = vec![
        Point2::new(px(500.0), px(496.0)),
        Point2::new(px(500.0), px(504.0)),
        Point2::new(px(506.928), px(500.0)),
        Point2::new(px(522.309), px(500.0)),
    ];
    let pose = create_ir_points(points, px(1000.0), px(1000.0)).find_tracker_pose().unwrap();
    assert_eq!(pose.rotation(), 1_570_796);
    let (x, y) = pose.position();
    assert_eq!(x, 1_000_000 - 500_000 - 58_000);
    assert_eq!(y, 1_000_000 - 502_309);
}

#[test]
fn ir_tracker_wide_frame_keeps_aspect() {
    // the same pattern in a frame twice as wide: the shorter side is the unit
    let frame = create_ir_points(pattern(), px(1000.0), px(2000.0));
    let pose = frame.find_tracker_pose().unwrap();
    assert_eq!(pose.position(), (500_000, 439_691));
    let points = frame.points_in_screen_space();
    assert_eq!(points[2], Point2::new(506_928, 500_000));
}
