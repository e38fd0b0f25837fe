//! Tests of the script-side protocol handle and the window configuration
//! builders.  The engine side is played by pre-loaded responses on the
//! channel pair, so each exchange runs on one thread.
use std::sync::mpsc;

use slowpoke::command::{
    Command, DataCmd, DrawRequest, MotionCmd, ProtocolError, Request, Response, TimedDrawCmd,
};
use slowpoke::polygon::ScreenPoint;
use slowpoke::turtle::{
    decode_count, decode_heading, decode_num_input, decode_position, decode_text_input, Turtle,
    TurtleArgs,
};

fn harness() -> (Turtle, mpsc::Receiver<Request>, mpsc::Sender<Response>) {
    let (req_tx, req_rx) = mpsc::channel();
    let (resp_tx, resp_rx) = mpsc::channel();
    (Turtle::init(req_tx, resp_rx, 7), req_rx, resp_tx)
}

#[test]
fn do_command_sends_and_blocks_for_the_response() {
    let (mut turtle, req_rx, resp_tx) = harness();
    resp_tx.send(Response::Done).unwrap();
    let r = turtle.do_draw(DrawRequest::TimedDraw(TimedDrawCmd::Motion(MotionCmd::Forward(1_000))));
    assert_eq!(r, Ok(Response::Done));
    let request = req_rx.try_recv().expect("the request must have been sent");
    assert_eq!(request.turtle_id, 7);
    assert_eq!(
        request.cmd,
        Command::Draw(DrawRequest::TimedDraw(TimedDrawCmd::Motion(MotionCmd::Forward(1_000))))
    );
}

#[test]
fn engine_gone_is_fatal_not_a_panic() {
    let (req_tx, req_rx) = mpsc::channel();
    let (_resp_tx, resp_rx) = mpsc::channel::<Response>();
    let mut turtle = Turtle::init(req_tx, resp_rx, 0);
    drop(req_rx);
    let r = turtle.do_data(DataCmd::Heading);
    assert_eq!(r, Err(ProtocolError::EngineGone));
}

#[test]
fn closed_response_channel_is_engine_gone() {
    let (req_tx, _req_rx) = mpsc::channel();
    let (resp_tx, resp_rx) = mpsc::channel::<Response>();
    let mut turtle = Turtle::init(req_tx, resp_rx, 0);
    drop(resp_tx);
    let r = turtle.do_data(DataCmd::Heading);
    assert_eq!(r, Err(ProtocolError::EngineGone));
}

#[test]
fn undobufferentries_reads_the_count() {
    let (mut turtle, _req_rx, resp_tx) = harness();
    resp_tx.send(Response::Count(3)).unwrap();
    assert_eq!(turtle.undobufferentries(), Ok(3));
    resp_tx.send(Response::Done).unwrap();
    assert_eq!(turtle.undobufferentries(), Err(ProtocolError::UnexpectedResponse));
}

#[test]
fn numinput_reports_cancellation() {
    let (mut turtle, req_rx, resp_tx) = harness();
    resp_tx.send(Response::Num(42_000)).unwrap();
    assert_eq!(turtle.numinput("title", "how far?"), Ok(Some(42_000)));
    resp_tx.send(Response::Cancelled).unwrap();
    assert_eq!(turtle.numinput("title", "how far?"), Ok(None));
    let first = req_rx.try_recv().unwrap();
    assert!(matches!(first.cmd, Command::Input(_)));
}

#[test]
fn textinput_reads_text() {
    let (mut turtle, _req_rx, resp_tx) = harness();
    resp_tx.send(Response::Text("hello".to_string())).unwrap();
    assert_eq!(turtle.textinput("t", "p"), Ok(Some("hello".to_string())));
}

#[test]
fn sugar_methods_build_the_right_requests() {
    let (mut turtle, req_rx, resp_tx) = harness();
    for _ in 0..6 {
        resp_tx.send(Response::Done).unwrap();
    }
    turtle.forward(10_000).unwrap();
    turtle.left(90_000).unwrap();
    turtle.teleport(1_000, 2_000).unwrap();
    turtle.penup().unwrap();
    turtle.circle(300_000, 360_000, 3).unwrap();
    turtle.undo().unwrap();
    let kinds: Vec<Request> = req_rx.try_iter().collect();
    assert_eq!(kinds.len(), 6);
    assert!(matches!(
        &kinds[4].cmd,
        Command::Draw(DrawRequest::TimedDraw(TimedDrawCmd::Circle(300_000, 360_000, 3)))
    ));
    assert!(matches!(
        &kinds[5].cmd,
        Command::Draw(DrawRequest::TimedDraw(TimedDrawCmd::Undo))
    ));
}

#[test]
fn args_default_and_builders() {
    let args = TurtleArgs::default();
    assert_eq!(args.size, [800, 800]);
    assert_eq!(args.title, "Turtle");
    let args = TurtleArgs::default().with_size(400, 300).with_title("a line");
    assert_eq!(args.size, [400, 300]);
    assert_eq!(args.title, "a line");
}

#[test]
fn stroke_command_rotation() {
    assert_eq!(slowpoke::Command::Right(30_000).get_rotation(), 30_000);
    assert_eq!(slowpoke::Command::Left(30_000).get_rotation(), -30_000);
    assert_eq!(slowpoke::Command::Forward(5_000).get_rotation(), 0);
    assert_eq!(slowpoke::Command::ClearScreen.get_rotation(), 0);
}

#[test]
fn decoders_accept_only_their_shape() {
    assert_eq!(decode_count(Response::Count(3)), Ok(3));
    assert_eq!(decode_count(Response::Done), Err(ProtocolError::UnexpectedResponse));
    assert_eq!(
        decode_position(Response::Position(ScreenPoint { x: 4, y: -5 })),
        Ok(ScreenPoint { x: 4, y: -5 })
    );
    assert_eq!(
        decode_position(Response::Heading(1)),
        Err(ProtocolError::UnexpectedResponse)
    );
    assert_eq!(decode_heading(Response::Heading(-90_000)), Ok(-90_000));
    assert_eq!(decode_heading(Response::Count(1)), Err(ProtocolError::UnexpectedResponse));
    assert_eq!(decode_num_input(Response::Num(42_000)), Ok(Some(42_000)));
    assert_eq!(decode_num_input(Response::Cancelled), Ok(None));
    assert_eq!(decode_num_input(Response::Done), Err(ProtocolError::UnexpectedResponse));
    assert_eq!(decode_text_input(Response::Text("hi".to_string())), Ok(Some("hi".to_string())));
    assert_eq!(decode_text_input(Response::Cancelled), Ok(None));
    assert_eq!(
        decode_text_input(Response::Num(1)),
        Err(ProtocolError::UnexpectedResponse)
    );
}
