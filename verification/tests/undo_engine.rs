//! Tests of the undo history and the engine context that owns every
//! turtle's state.
use slowpoke::command::{
    Command, DataCmd, DrawRequest, InstantaneousDrawCmd, MotionCmd, Request, Response, RotateCmd,
    ScreenCmd, TimedDrawCmd,
};
use slowpoke::color_names::TurtleColor;
use slowpoke::generate::{CurrentTurtleState, DrawCommand};
use slowpoke::polygon::{ExactPoint, TurtlePolygon};
use slowpoke::undo::UndoLog;
use slowpoke::{DrawOutcome, EngineAction, TurtleTask};

fn motion(m: MotionCmd) -> DrawRequest {
    DrawRequest::TimedDraw(TimedDrawCmd::Motion(m))
}

fn undo_req() -> DrawRequest {
    DrawRequest::TimedDraw(TimedDrawCmd::Undo)
}

#[test]
fn record_then_undo_restores_snapshot() {
    let mut log = UndoLog::new();
    let mut state = CurrentTurtleState::default();
    let snapshot = state;
    log.record(snapshot, motion(MotionCmd::Forward(10_000)), None);
    assert_eq!(log.undo_count(), 1);
    state.apply(&motion(MotionCmd::Forward(10_000)));
    assert_ne!(state, snapshot);
    let popped = log.undo(&mut state).expect("one entry to undo");
    assert_eq!(state, snapshot, "undo must restore the snapshot exactly");
    assert_eq!(popped.pre_state, snapshot);
    assert_eq!(log.undo_count(), 0);
}

#[test]
fn undo_on_empty_history_is_a_noop() {
    let mut log = UndoLog::new();
    let mut state = CurrentTurtleState::default();
    state.apply(&motion(MotionCmd::Teleport(7_000, 8_000)));
    let before = state;
    assert!(log.undo(&mut state).is_none());
    assert_eq!(state, before);
    assert_eq!(log.undo_count(), 0);
}

#[test]
fn truncating_keeps_the_newest_entries() {
    let mut log = UndoLog::new();
    let state = CurrentTurtleState::default();
    for k in 0..5 {
        log.record(state, motion(MotionCmd::Forward(k * 1_000)), None);
    }
    log.truncate_oldest(2);
    assert_eq!(log.undo_count(), 2);
    let mut s = state;
    let popped = log.undo(&mut s).expect("an entry");
    assert_eq!(popped.request, motion(MotionCmd::Forward(4_000)), "the newest stays");
    log.truncate_oldest(2);
    assert_eq!(log.undo_count(), 1);
}

#[test]
fn engine_undo_rolls_back_each_mutation() {
    let mut task = TurtleTask::new();
    let id = task.add_turtle();
    let commands = [
        motion(MotionCmd::Forward(50_000)),
        DrawRequest::TimedDraw(TimedDrawCmd::Rotate(RotateCmd::Right(90_000))),
        motion(MotionCmd::Teleport(-3_000, 4_000)),
        DrawRequest::InstantaneousDraw(InstantaneousDrawCmd::PenWidth(2_000)),
        DrawRequest::InstantaneousDraw(InstantaneousDrawCmd::PenUp),
    ];
    let mut positions = Vec::new();
    let mut headings = Vec::new();
    for c in commands {
        positions.push(task.handle_data(id, &DataCmd::Position));
        headings.push(task.handle_data(id, &DataCmd::Heading));
        let out = task.handle_draw(id, c);
        assert!(matches!(out, DrawOutcome::Applied(_)));
    }
    assert_eq!(task.handle_data(id, &DataCmd::UndoBufferEntries), Response::Count(5));
    for k in (0..5).rev() {
        let out = task.handle_draw(id, undo_req());
        assert!(matches!(out, DrawOutcome::Undone(Some(_))));
        assert_eq!(task.handle_data(id, &DataCmd::Position), positions[k]);
        assert_eq!(task.handle_data(id, &DataCmd::Heading), headings[k]);
        assert_eq!(task.handle_data(id, &DataCmd::UndoBufferEntries), Response::Count(k));
    }
    // the history is empty now: one more undo is a no-op
    let out = task.handle_draw(id, undo_req());
    assert!(matches!(out, DrawOutcome::Undone(None)));
    assert_eq!(task.handle_data(id, &DataCmd::Position), positions[0]);
}

#[test]
fn engine_rejects_degenerate_circle() {
    let mut task = TurtleTask::new();
    let id = task.add_turtle();
    let before = task.handle_data(id, &DataCmd::Position);
    let out = task.handle_draw(id, DrawRequest::TimedDraw(TimedDrawCmd::Circle(300_000, 360_000, 0)));
    assert!(matches!(out, DrawOutcome::Rejected), "a zero-step circle is refused");
    assert_eq!(task.handle_data(id, &DataCmd::Position), before);
    assert_eq!(task.handle_data(id, &DataCmd::UndoBufferEntries), Response::Count(0));
}

#[test]
fn engine_records_only_mutating_commands() {
    let mut task = TurtleTask::new();
    let id = task.add_turtle();
    task.handle_draw(id, DrawRequest::InstantaneousDraw(InstantaneousDrawCmd::Stamp(true)));
    task.handle_draw(
        id,
        DrawRequest::InstantaneousDraw(InstantaneousDrawCmd::Dot(None, TurtleColor::CurrentColor)),
    );
    task.handle_draw(
        id,
        DrawRequest::InstantaneousDraw(InstantaneousDrawCmd::PenColor(TurtleColor::Color(1, 2, 3))),
    );
    assert_eq!(task.handle_data(id, &DataCmd::UndoBufferEntries), Response::Count(0));
    task.handle_draw(id, DrawRequest::InstantaneousDraw(InstantaneousDrawCmd::PenDown));
    task.handle_draw(
        id,
        DrawRequest::InstantaneousDraw(InstantaneousDrawCmd::FillColor(TurtleColor::Color(4, 5, 6))),
    );
    assert_eq!(task.handle_data(id, &DataCmd::UndoBufferEntries), Response::Count(2));
}

#[test]
fn popped_entry_distinguishes_stamps() {
    let mut log = UndoLog::new();
    let mut state = CurrentTurtleState::default();
    let poly = TurtlePolygon::new(vec![ExactPoint { x: 0, y: 0 }]);
    let stamped = DrawCommand::DrawPolyAt(poly, ExactPoint { x: 0, y: 0 }, 0);
    log.record(state, DrawRequest::InstantaneousDraw(InstantaneousDrawCmd::Stamp(true)), Some(stamped));
    let popped = log.undo(&mut state).expect("an entry");
    assert!(popped.command.as_ref().map(|c| c.is_stamp()).unwrap_or(false));
}

#[test]
fn engine_routes_command_families() {
    let mut task = TurtleTask::new();
    let id = task.add_turtle() as u64;
    let act = task.handle_command(Request {
        turtle_id: id,
        cmd: Command::Draw(motion(MotionCmd::Forward(1_000))),
    });
    assert!(matches!(act, EngineAction::Draw(DrawOutcome::Applied(Some(_)))));
    let act = task.handle_command(Request { turtle_id: id, cmd: Command::Data(DataCmd::Heading) });
    assert!(matches!(act, EngineAction::Data(Response::Heading(0))));
    let act = task.handle_command(Request { turtle_id: id, cmd: Command::Screen(ScreenCmd::ClearScreen) });
    assert!(matches!(act, EngineAction::External(Command::Screen(ScreenCmd::ClearScreen))));
    let act = task.handle_command(Request {
        turtle_id: 99,
        cmd: Command::Data(DataCmd::Position),
    });
    assert!(matches!(act, EngineAction::UnknownTurtle));
}

#[test]
fn engine_turtles_are_independent() {
    let mut task = TurtleTask::new();
    let a = task.add_turtle();
    let b = task.add_turtle();
    assert_ne!(a, b);
    task.handle_draw(a, motion(MotionCmd::Teleport(10_000, 0)));
    match task.handle_data(b, &DataCmd::Position) {
        Response::Position(p) => assert_eq!((p.x, p.y), (0, 0)),
        other => panic!("expected a position, got {other:?}"),
    }
    match task.handle_data(a, &DataCmd::Position) {
        Response::Position(p) => assert_eq!((p.x, p.y), (10, 0)),
        other => panic!("expected a position, got {other:?}"),
    }
}

#[test]
fn animation_progress_throttles_completion() {
    let mut task = TurtleTask::new();
    let id = task.add_turtle();
    let other = task.add_turtle();
    task.begin_command(id);
    assert!(!task.command_done(id));
    assert_eq!(task.current_progress(id), 0);
    task.update(id, 10);
    assert_eq!(task.current_progress(id), 300);
    task.update(id, 10);
    task.update(id, 10);
    assert_eq!(task.current_progress(id), 900);
    assert_eq!(task.current_progress(other), 0, "each turtle's command progresses independently");
    task.update(id, 10);
    assert!(task.command_done(id), "1200 of 1000 milli is complete");
    assert_eq!(task.current_progress(id), 1000, "progress is clamped for rendering");
    task.update(id, 10);
    assert_eq!(task.current_progress(id), 1000, "progress stops accruing once complete");
    task.begin_command(id);
    assert!(!task.command_done(id));
}
