//! Tests of the turtle state machine: motions, rotations, pen changes and
//! circles.  Distances are in milliunits, angles in millidegrees.
use slowpoke::command::{DrawRequest, InstantaneousDrawCmd, MotionCmd, RotateCmd, TimedDrawCmd};
use slowpoke::color_names::TurtleColor;
use slowpoke::generate::{CurrentTurtleState, DrawCommand};
use slowpoke::polygon::{ExactPoint, TurtlePolygon};

fn motion(m: MotionCmd) -> DrawRequest {
    DrawRequest::TimedDraw(TimedDrawCmd::Motion(m))
}

fn rotate(r: RotateCmd) -> DrawRequest {
    DrawRequest::TimedDraw(TimedDrawCmd::Rotate(r))
}

fn instant(i: InstantaneousDrawCmd) -> DrawRequest {
    DrawRequest::InstantaneousDraw(i)
}

fn line_of(cmd: Option<DrawCommand>) -> slowpoke::generate::LineInfo {
    match cmd {
        Some(DrawCommand::Line(li)) => li,
        other => panic!("expected a line, got {other:?}"),
    }
}

#[test]
fn forward_draws_a_line() {
    let mut state = CurrentTurtleState::default();
    let out = state.apply(&motion(MotionCmd::Forward(100_000)));
    let li = line_of(out);
    assert_eq!((li.begin.x, li.begin.y), (0, 0));
    assert_eq!((li.end.x, li.end.y), (100, 0));
    assert!(li.pen_down);
    assert_eq!(state.pos(), ExactPoint { x: 100_000, y: 0 });
}

#[test]
fn teleport_always_reports_pen_up() {
    let mut state = CurrentTurtleState::default();
    assert!(state.is_pen_down());
    let li = line_of(state.apply(&motion(MotionCmd::Teleport(5_000, 6_000))));
    assert!(!li.pen_down, "a teleport must report a jump even with the pen down");
    assert_eq!((li.end.x, li.end.y), (5, 6));
    let li = line_of(state.apply(&motion(MotionCmd::GoTo(1_000, 2_000))));
    assert!(li.pen_down, "a go-to reports the actual pen state");
    state.apply(&instant(InstantaneousDrawCmd::PenUp));
    let li = line_of(state.apply(&motion(MotionCmd::GoTo(3_000, 4_000))));
    assert!(!li.pen_down);
    let li = line_of(state.apply(&motion(MotionCmd::Teleport(0, 0))));
    assert!(!li.pen_down);
}

#[test]
fn motion_lines_are_continuous() {
    let mut state = CurrentTurtleState::default();
    state.apply(&rotate(RotateCmd::Right(37_000)));
    let motions = [
        MotionCmd::Forward(50_000),
        MotionCmd::GoTo(10_000, 20_000),
        MotionCmd::SetX(-3_000),
        MotionCmd::Forward(7_499),
        MotionCmd::SetY(12_345),
        MotionCmd::Teleport(-8_000, 1_000),
        MotionCmd::Forward(250),
    ];
    let mut lines = Vec::new();
    for m in motions {
        lines.push(line_of(state.apply(&motion(m))));
    }
    for k in 0..lines.len() - 1 {
        assert_eq!(lines[k].end, lines[k + 1].begin, "line {k} must end where line {} begins", k + 1);
    }
}

#[test]
fn right_then_left_restores_heading() {
    let mut state = CurrentTurtleState::default();
    let before = state.angle();
    let out = state.apply(&rotate(RotateCmd::Right(30_000)));
    assert!(matches!(out, Some(DrawCommand::SetHeading(0, 30_000))));
    let out = state.apply(&rotate(RotateCmd::Left(30_000)));
    assert!(matches!(out, Some(DrawCommand::SetHeading(30_000, 0))));
    assert_eq!(state.angle(), before);
    assert_eq!(state.pos(), ExactPoint { x: 0, y: 0 });
}

#[test]
fn set_heading_twice_is_idempotent() {
    let mut state = CurrentTurtleState::default();
    let out = state.apply(&rotate(RotateCmd::SetHeading(45_000)));
    // the runtime's convention: (180 - h) + 90 degrees
    assert!(matches!(out, Some(DrawCommand::SetHeading(0, 225_000))));
    let first = state.angle();
    let out = state.apply(&rotate(RotateCmd::SetHeading(45_000)));
    match out {
        Some(DrawCommand::SetHeading(from, to)) => {
            assert_eq!(from, to, "the second set-heading performs no further rotation");
        }
        other => panic!("expected a heading change, got {other:?}"),
    }
    assert_eq!(state.angle(), first);
}

#[test]
fn pen_width_is_halved_in_output() {
    let mut state = CurrentTurtleState::default();
    let out = state.apply(&instant(InstantaneousDrawCmd::PenWidth(4_000)));
    assert!(matches!(out, Some(DrawCommand::SetPenWidth(2_000))));
    // the state stores the unhalved width for later dot defaulting
    assert_eq!(state.pen_width(), 4_000);
    let out = state.apply(&instant(InstantaneousDrawCmd::PenWidth(7_001)));
    assert!(matches!(out, Some(DrawCommand::SetPenWidth(3_500))));
}

#[test]
fn dot_defaults_to_pen_width_and_fill_color() {
    let mut state = CurrentTurtleState::default();
    let out = state.apply(&instant(InstantaneousDrawCmd::Dot(None, TurtleColor::CurrentColor)));
    match out {
        Some(DrawCommand::DrawDot(p, size, color)) => {
            assert_eq!(p, ExactPoint { x: 0, y: 0 });
            assert_eq!(size, 500, "the default pen width is half a unit");
            assert_eq!(color, TurtleColor::Color(0, 0, 0), "the sentinel takes the fill colour");
        }
        other => panic!("expected a dot, got {other:?}"),
    }
    state.apply(&instant(InstantaneousDrawCmd::FillColor(TurtleColor::Color(9, 8, 7))));
    state.apply(&instant(InstantaneousDrawCmd::PenWidth(2_200)));
    state.apply(&motion(MotionCmd::Teleport(1_500, -2_500)));
    let out = state.apply(&instant(InstantaneousDrawCmd::Dot(None, TurtleColor::CurrentColor)));
    match out {
        Some(DrawCommand::DrawDot(p, size, color)) => {
            assert_eq!(p, ExactPoint { x: 1_500, y: -2_500 }, "a dot reads the exact position");
            assert_eq!(size, 2_200);
            assert_eq!(color, TurtleColor::Color(9, 8, 7));
        }
        other => panic!("expected a dot, got {other:?}"),
    }
    let out = state.apply(&instant(InstantaneousDrawCmd::Dot(
        Some(900),
        TurtleColor::Color(1, 2, 3),
    )));
    match out {
        Some(DrawCommand::DrawDot(_, size, color)) => {
            assert_eq!(size, 900);
            assert_eq!(color, TurtleColor::Color(1, 2, 3));
        }
        other => panic!("expected a dot, got {other:?}"),
    }
}

#[test]
fn instantaneous_outputs() {
    let mut state = CurrentTurtleState::default();
    assert!(state.apply(&instant(InstantaneousDrawCmd::Tracer(true))).is_none());
    assert!(matches!(
        state.apply(&instant(InstantaneousDrawCmd::BackfillPolygon)),
        Some(DrawCommand::Filler)
    ));
    assert!(state.apply(&instant(InstantaneousDrawCmd::PenUp)).is_none());
    assert!(!state.is_pen_down());
    assert!(state.apply(&instant(InstantaneousDrawCmd::PenDown)).is_none());
    assert!(state.is_pen_down());
    let c = TurtleColor::Color(10, 20, 30);
    assert!(matches!(
        state.apply(&instant(InstantaneousDrawCmd::PenColor(c))),
        Some(DrawCommand::SetPenColor(TurtleColor::Color(10, 20, 30)))
    ));
    assert!(matches!(
        state.apply(&instant(InstantaneousDrawCmd::FillColor(c))),
        Some(DrawCommand::SetFillColor(TurtleColor::Color(10, 20, 30)))
    ));
    assert_eq!(state.fill_color(), c);
    assert!(matches!(
        state.apply(&instant(InstantaneousDrawCmd::Stamp(true))),
        Some(DrawCommand::StampTurtle)
    ));
    assert!(state.apply(&DrawRequest::TimedDraw(TimedDrawCmd::Undo)).is_none());
}

#[test]
fn fill_passes_the_polygon_through() {
    let mut state = CurrentTurtleState::default();
    let poly = TurtlePolygon::new(vec![
        ExactPoint { x: 0, y: 0 },
        ExactPoint { x: 1_000, y: 0 },
        ExactPoint { x: 0, y: 1_000 },
    ]);
    let out = state.apply(&instant(InstantaneousDrawCmd::Fill(poly.clone())));
    match out {
        Some(DrawCommand::DrawPolygon(p)) => assert_eq!(p, poly),
        other => panic!("expected a polygon, got {other:?}"),
    }
}

#[test]
fn stamp_predicate_only_for_stamped_polygons() {
    let poly = TurtlePolygon::new(vec![ExactPoint { x: 0, y: 0 }]);
    let stamped = DrawCommand::DrawPolyAt(poly.clone(), ExactPoint { x: 1, y: 2 }, 90_000);
    assert!(stamped.is_stamp());
    assert!(!DrawCommand::StampTurtle.is_stamp());
    assert!(!DrawCommand::Filler.is_stamp());
    assert!(!DrawCommand::DrawPolygon(poly).is_stamp());
}

#[test]
fn three_sided_circle_samples() {
    // circle(radius 300, extent 360 degrees, 3 steps)
    let mut state = CurrentTurtleState::default();
    let out = state.apply(&DrawRequest::TimedDraw(TimedDrawCmd::Circle(300_000, 360_000, 3)));
    let samples = match out {
        Some(DrawCommand::Circle(v)) => v,
        other => panic!("expected circle samples, got {other:?}"),
    };
    assert_eq!(samples.len(), 4, "three steps yield exactly four position samples");
    // the per-step rotations add up to the whole extent, exactly
    assert_eq!(state.angle(), -360_000);
    assert_eq!(samples[0].angle - samples[3].angle, 360_000 - 60_000,
        "the last sample is taken before the closing half-rotation");
    // all chord lengths between consecutive samples are equal within the
    // fixed-point approximation's tolerance
    let mut lengths = Vec::new();
    for k in 0..3 {
        let dx = (samples[k + 1].x - samples[k].x) as f64;
        let dy = (samples[k + 1].y - samples[k].y) as f64;
        lengths.push((dx * dx + dy * dy).sqrt());
    }
    let max = lengths.iter().cloned().fold(f64::MIN, f64::max);
    let min = lengths.iter().cloned().fold(f64::MAX, f64::min);
    assert!(max > 0.0);
    assert!(
        (max - min) / max < 0.02,
        "chord lengths {lengths:?} must be equal within tolerance"
    );
}

#[test]
fn circle_request_validation() {
    let state = CurrentTurtleState::default();
    // zero steps is degenerate input and must be refused, not applied
    assert!(!state.check_request(&DrawRequest::TimedDraw(TimedDrawCmd::Circle(300_000, 360_000, 0))));
    assert!(state.check_request(&DrawRequest::TimedDraw(TimedDrawCmd::Circle(300_000, 360_000, 1))));
    assert!(!state.check_request(&motion(MotionCmd::Forward(i64::MAX))));
    assert!(state.check_request(&motion(MotionCmd::Forward(-1_000_000))));
    assert!(!state.check_request(&rotate(RotateCmd::Right(i64::MIN))));
    assert!(state.check_request(&DrawRequest::TimedDraw(TimedDrawCmd::Undo)));
}

#[test]
fn get_data_returns_heading_and_point() {
    let mut state = CurrentTurtleState::default();
    let out = state.apply(&DrawRequest::TimedDraw(TimedDrawCmd::Circle(10_000, 90_000, 2)));
    let samples = match out {
        Some(DrawCommand::Circle(v)) => v,
        other => panic!("expected circle samples, got {other:?}"),
    };
    let (angle, point) = samples[0].get_data();
    assert_eq!(angle, samples[0].angle);
    assert_eq!(point.x, samples[0].x);
    assert_eq!(point.y, samples[0].y);
}
