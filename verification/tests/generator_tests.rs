use grid::canvas::Canvas;
use grid::StepIter;

fn ops_text(canvas: Canvas) -> String {
    String::from_utf8(canvas.into_output()).expect("canvas operators are ASCII")
}

#[test]
fn step_iter_yields_configured_values() {
    let mut it = StepIter::new(5, 2, 4);
    assert_eq!(it.next(), Some(5));
    assert_eq!(it.next(), Some(7));
    assert_eq!(it.next(), Some(9));
    assert_eq!(it.next(), Some(11));
    assert_eq!(it.next(), None);
    assert_eq!(it.next(), None);
}

#[test]
fn step_iter_fresh_instance_restarts() {
    let mut first = StepIter::new(0, 72000, 2);
    assert_eq!(first.next(), Some(0));
    assert_eq!(first.next(), Some(72000));
    assert_eq!(first.next(), None);
    let mut second = StepIter::new(0, 72000, 2);
    assert_eq!(second.next(), Some(0));
}

#[test]
fn circle_emits_four_bezier_segments() {
    // radius 10 points = 10000 milli-points, centered at the origin
    let mut canvas = Canvas::new(Vec::new());
    canvas.circle(0, 0, 10000);
    let text = ops_text(canvas);
    assert_eq!(text.matches(" m ").count(), 1);
    assert_eq!(text.matches(" c\n").count(), 4);
    assert!(text.ends_with("f\n"));
    assert!(text.starts_with("0 -10 m "));
    // the first curve: control points offset by r * 0.551915024494 from center
    let curve = text
        .split(" m ")
        .nth(1)
        .unwrap()
        .split(" c\n")
        .next()
        .unwrap();
    let nums: Vec<f64> = curve.split(' ').map(|t| t.parse::<f64>().unwrap()).collect();
    assert_eq!(nums.len(), 6);
    let k = 10.0 * 0.551915024494;
    // first control point (x - k, top), second (left, y - k), end (left, y)
    assert!((nums[0] + k).abs() < 1e-3);
    assert!((nums[1] + 10.0).abs() < 1e-9);
    assert!((nums[2] + 10.0).abs() < 1e-9);
    assert!((nums[3] + k).abs() < 1e-3);
    assert!((nums[4] + 10.0).abs() < 1e-9);
    assert!(nums[5].abs() < 1e-9);
}

#[test]
fn color_channel_255_maps_to_one_and_0_to_zero() {
    let mut canvas = Canvas::new(Vec::new());
    canvas.set_fill_color((255, 255, 255));
    canvas.set_fill_color((0, 0, 0));
    let text = ops_text(canvas);
    assert_eq!(text, "1 1 1 sc\n0 0 0 sc\n");
}

#[test]
fn color_channel_normalizes_within_tolerance() {
    let mut canvas = Canvas::new(Vec::new());
    canvas.set_stroke_color((100, 200, 1));
    let text = ops_text(canvas);
    assert!(text.ends_with(" SC\n"));
    let nums: Vec<f64> = text[..text.len() - 4]
        .split(' ')
        .map(|t| t.parse::<f64>().unwrap())
        .collect();
    assert_eq!(nums.len(), 3);
    assert!((nums[0] - 100.0 / 255.0).abs() < 1e-6);
    assert!((nums[1] - 200.0 / 255.0).abs() < 1e-6);
    assert!((nums[2] - 1.0 / 255.0).abs() < 1e-6);
}

#[test]
fn line_emits_move_segment_stroke() {
    let mut canvas = Canvas::new(Vec::new());
    canvas.line(0, 0, 72000, 144000);
    assert_eq!(ops_text(canvas), "0 0 m 72 144 l S\n");
}

#[test]
fn coordinates_format_as_trimmed_decimals() {
    // 14.4 points, 0.072 points, -7.2 points, whole points
    let mut canvas = Canvas::new(Vec::new());
    canvas.line(14400, 72, -7200, 3000);
    assert_eq!(ops_text(canvas), "14.4 0.072 m -7.2 3 l S\n");
}

#[test]
fn curve_to_emits_six_coordinates() {
    let mut canvas = Canvas::new(Vec::new());
    canvas.curve_to(1000, 2000, 3000, 4000, 5000, 6000);
    assert_eq!(ops_text(canvas), "1 2 3 4 5 6 c\n");
}
