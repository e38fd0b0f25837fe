//! Tests of the renderer's pose walk over the stroke-command alphabet.
use slowpoke::render::{check_walk, render_walk, StrokeSegment};
use slowpoke::Command;

#[test]
fn walk_replays_finished_commands_in_full() {
    // start at the centre, heading a quarter turn anticlockwise (up)
    let cmds = vec![Command::Forward(10_000), Command::Right(90_000), Command::Forward(5_000)];
    let (segs, pose) = render_walk(&cmds, None, 0, true);
    assert_eq!(segs.len(), 2);
    assert_eq!(segs[0].begin.x, 0);
    assert_eq!(segs[0].begin.y, 0);
    assert_eq!(segs[0].end.x, 0);
    assert_eq!(segs[0].end.y, -10_000, "the first stroke goes straight up");
    assert_eq!(segs[1].begin, segs[0].end, "strokes are contiguous");
    assert_eq!(segs[1].end.x, 5_000);
    assert_eq!(segs[1].end.y, -10_000, "after a right turn the stroke goes rightward");
    assert_eq!(pose.angle, 0);
    assert!(pose.pen_down);
}

#[test]
fn walk_scales_the_inflight_command() {
    let cmds = vec![Command::Forward(10_000)];
    // the in-flight forward is half complete
    let (segs, pose) = render_walk(&cmds, Some(&Command::Forward(8_000)), 500, true);
    assert_eq!(segs.len(), 2);
    assert_eq!(segs[1].end.y, -10_000 - 4_000, "half of the distance is drawn");
    assert_eq!(pose.y, -14_000);
    // a finished frame replays the same command in full
    let (segs_full, _) = render_walk(&cmds, Some(&Command::Forward(8_000)), 1000, true);
    assert_eq!(segs_full[1].end.y, -18_000);
}

#[test]
fn walk_pen_state_gates_segments() {
    let cmds = vec![
        Command::PenUp,
        Command::Forward(10_000),
        Command::PenDown,
        Command::Forward(2_000),
    ];
    let (segs, _) = render_walk(&cmds, None, 0, true);
    assert_eq!(segs.len(), 1, "only the pen-down forward paints");
    let all: Vec<StrokeSegment> = segs;
    assert_eq!(all[0].begin.y, -10_000);
}

#[test]
fn walk_goto_realigns_to_accumulated_heading() {
    // the accumulated heading counts full rotations, not the animated part
    let cmds = vec![Command::Right(90_000), Command::GoTo(3_000, 4_000)];
    let (_, pose) = render_walk(&cmds, None, 0, false);
    assert_eq!(pose.x, 3_000);
    assert_eq!(pose.y, 4_000);
    assert_eq!(pose.angle, 0, "a quarter right from the upward start");
    assert_eq!(pose.deg, 0);
}

#[test]
fn walk_validation_refuses_clear_screen() {
    let ok = vec![Command::Forward(1_000)];
    assert!(check_walk(&ok, None));
    let bad = vec![Command::Forward(1_000), Command::ClearScreen];
    assert!(!check_walk(&bad, None), "a clear-screen marker is not a drawing command");
    assert!(!check_walk(&ok, Some(&Command::Forward(i64::MAX))));
}
