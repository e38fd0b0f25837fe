//! The script-side of the command protocol: window configuration and the
//! handle a script drives one turtle through.
//!
//! Every request sent over the handle blocks until the engine context
//! answers it, so a script observes its commands strictly in order.  A
//! closed channel means the engine context is gone; that is fatal and the
//! script must not retry.
use vstd::prelude::*;

use std::sync::mpsc::{Receiver, Sender};

use crate::channel::{channel_recv, channel_send};
use crate::color_names::TurtleColor;
use crate::command::{
    Command, DataCmd, DrawRequest, InputCmd, InstantaneousDrawCmd, MotionCmd, ProtocolError,
    Request, Response, RotateCmd, ScreenCmd, TimedDrawCmd,
};
use crate::polygon::ScreenPoint;

verus! {

/// Configuration of a turtle window: its size in whole canvas units and
/// its title.
#[derive(Debug)]
pub struct TurtleArgs {
    pub size: [i64; 2],
    pub title: String,
}

impl Default for TurtleArgs {
    /// An 800 by 800 window titled "Turtle".
    fn default() -> (a: Self)
        ensures
            a.size[0] == 800,
            a.size[1] == 800,
            a.title@ == "Turtle"@,
    {
        TurtleArgs { size: [800, 800], title: "Turtle".to_owned() }
    }
}

impl TurtleArgs {
    /// The same configuration with the given window size.
    pub fn with_size(self, x: i64, y: i64) -> (r: Self)
        ensures
            r.size[0] == x,
            r.size[1] == y,
            r.title@ == self.title@,
    {
        TurtleArgs { size: [x, y], title: self.title }
    }

    /// The same configuration with the given window title.
    pub fn with_title(self, title: &str) -> (r: Self)
        ensures
            r.title@ == title@,
            r.size[0] == self.size[0],
            r.size[1] == self.size[1],
    {
        TurtleArgs { size: self.size, title: title.to_owned() }
    }
}

/// The script-side handle of one turtle: the request channel into the
/// engine context, the response channel back, and the turtle's identifier.
#[derive(Debug)]
pub struct Turtle {
    pub issue_command: Sender<Request>,
    pub command_complete: Receiver<Response>,
    pub turtle_id: u64,
}

impl Turtle {
    /// A handle over the given channel pair, for the turtle `turtle_id`.
    pub fn init(
        issue_command: Sender<Request>,
        command_complete: Receiver<Response>,
        turtle_id: u64,
    ) -> (t: Self)
        ensures
            t.turtle_id == turtle_id,
    {
        Turtle { issue_command, command_complete, turtle_id }
    }

    /// Sends one command to the engine context and blocks until its
    /// response arrives.  What the response holds is the engine's
    /// decision; a closed channel in either direction is the fatal
    /// engine-gone condition.
    pub fn do_command(&mut self, cmd: Command) -> (r: Result<Response, ProtocolError>)
        ensures
            r matches Err(e) ==> e == ProtocolError::EngineGone,
    {
        let sent = channel_send(
            &self.issue_command,
            Request { turtle_id: self.turtle_id, cmd },
        );
        if !sent {
            return Err(ProtocolError::EngineGone);
        }
        match channel_recv(&self.command_complete) {
            Some(resp) => Ok(resp),
            None => Err(ProtocolError::EngineGone),
        }
    }

    /// Issues one drawing request.
    pub fn do_draw(&mut self, cmd: DrawRequest) -> (r: Result<Response, ProtocolError>)
        ensures
            r matches Err(e) ==> e == ProtocolError::EngineGone,
    {
        self.do_command(Command::Draw(cmd))
    }

    /// Issues one screen command.
    pub fn do_screen(&mut self, cmd: ScreenCmd) -> (r: Result<Response, ProtocolError>)
        ensures
            r matches Err(e) ==> e == ProtocolError::EngineGone,
    {
        self.do_command(Command::Screen(cmd))
    }

    /// Issues one input request; blocks until the user answered.
    pub fn do_input(&mut self, cmd: InputCmd) -> (r: Result<Response, ProtocolError>)
        ensures
            r matches Err(e) ==> e == ProtocolError::EngineGone,
    {
        self.do_command(Command::Input(cmd))
    }

    /// Issues one synchronous data query.
    pub fn do_data(&mut self, cmd: DataCmd) -> (r: Result<Response, ProtocolError>)
        ensures
            r matches Err(e) ==> e == ProtocolError::EngineGone,
    {
        self.do_command(Command::Data(cmd))
    }

    /// Moves forward by `dist` milliunits.
    pub fn forward(&mut self, dist: i64) -> (r: Result<Response, ProtocolError>)
        ensures
            r matches Err(e) ==> e == ProtocolError::EngineGone,
    {
        self.do_draw(DrawRequest::TimedDraw(TimedDrawCmd::Motion(MotionCmd::Forward(dist))))
    }

    /// Turns right by `angle` millidegrees.
    pub fn right(&mut self, angle: i64) -> (r: Result<Response, ProtocolError>)
        ensures
            r matches Err(e) ==> e == ProtocolError::EngineGone,
    {
        self.do_draw(DrawRequest::TimedDraw(TimedDrawCmd::Rotate(RotateCmd::Right(angle))))
    }

    /// Turns left by `angle` millidegrees.
    pub fn left(&mut self, angle: i64) -> (r: Result<Response, ProtocolError>)
        ensures
            r matches Err(e) ==> e == ProtocolError::EngineGone,
    {
        self.do_draw(DrawRequest::TimedDraw(TimedDrawCmd::Rotate(RotateCmd::Left(angle))))
    }

    /// Sets the heading to `h` millidegrees.
    pub fn setheading(&mut self, h: i64) -> (r: Result<Response, ProtocolError>)
        ensures
            r matches Err(e) ==> e == ProtocolError::EngineGone,
    {
        self.do_draw(DrawRequest::TimedDraw(TimedDrawCmd::Rotate(RotateCmd::SetHeading(h))))
    }

    /// Jumps to `(x, y)` milliunits without drawing.
    pub fn teleport(&mut self, x: i64, y: i64) -> (r: Result<Response, ProtocolError>)
        ensures
            r matches Err(e) ==> e == ProtocolError::EngineGone,
    {
        self.do_draw(DrawRequest::TimedDraw(TimedDrawCmd::Motion(MotionCmd::Teleport(x, y))))
    }

    /// Moves to `(x, y)` milliunits, drawing if the pen is down.
    pub fn go_to(&mut self, x: i64, y: i64) -> (r: Result<Response, ProtocolError>)
        ensures
            r matches Err(e) ==> e == ProtocolError::EngineGone,
    {
        self.do_draw(DrawRequest::TimedDraw(TimedDrawCmd::Motion(MotionCmd::GoTo(x, y))))
    }

    /// Lifts the pen.
    pub fn penup(&mut self) -> (r: Result<Response, ProtocolError>)
        ensures
            r matches Err(e) ==> e == ProtocolError::EngineGone,
    {
        self.do_draw(DrawRequest::InstantaneousDraw(InstantaneousDrawCmd::PenUp))
    }

    /// Lowers the pen.
    pub fn pendown(&mut self) -> (r: Result<Response, ProtocolError>)
        ensures
            r matches Err(e) ==> e == ProtocolError::EngineGone,
    {
        self.do_draw(DrawRequest::InstantaneousDraw(InstantaneousDrawCmd::PenDown))
    }

    /// Sets the pen width in milliunits.
    pub fn penwidth(&mut self, w: i64) -> (r: Result<Response, ProtocolError>)
        ensures
            r matches Err(e) ==> e == ProtocolError::EngineGone,
    {
        self.do_draw(DrawRequest::InstantaneousDraw(InstantaneousDrawCmd::PenWidth(w)))
    }

    /// Sets the pen colour.
    pub fn pencolor(&mut self, c: TurtleColor) -> (r: Result<Response, ProtocolError>)
        ensures
            r matches Err(e) ==> e == ProtocolError::EngineGone,
    {
        self.do_draw(DrawRequest::InstantaneousDraw(InstantaneousDrawCmd::PenColor(c)))
    }

    /// Sets the fill colour.
    pub fn fillcolor(&mut self, c: TurtleColor) -> (r: Result<Response, ProtocolError>)
        ensures
            r matches Err(e) ==> e == ProtocolError::EngineGone,
    {
        self.do_draw(DrawRequest::InstantaneousDraw(InstantaneousDrawCmd::FillColor(c)))
    }

    /// Draws an arc: radius and extent in milli, `steps` chords.
    pub fn circle(&mut self, radius: i64, extent: i64, steps: u32) -> (r: Result<
        Response,
        ProtocolError,
    >)
        ensures
            r matches Err(e) ==> e == ProtocolError::EngineGone,
    {
        self.do_draw(DrawRequest::TimedDraw(TimedDrawCmd::Circle(radius, extent, steps)))
    }

    /// Rolls back the most recent mutating command.
    pub fn undo(&mut self) -> (r: Result<Response, ProtocolError>)
        ensures
            r matches Err(e) ==> e == ProtocolError::EngineGone,
    {
        self.do_draw(DrawRequest::TimedDraw(TimedDrawCmd::Undo))
    }

    /// The number of commands available to undo: issues the query and
    /// decodes the engine's answer through `decode_count`.
    pub fn undobufferentries(&mut self) -> (r: Result<usize, ProtocolError>)
        ensures
            r matches Err(e) ==> e == ProtocolError::EngineGone || e
                == ProtocolError::UnexpectedResponse,
    {
        match self.do_data(DataCmd::UndoBufferEntries) {
            Ok(resp) => decode_count(resp),
            Err(e) => Err(e),
        }
    }

    /// The turtle's position in rounded canvas units: issues the query and
    /// decodes the engine's answer through `decode_position`.
    pub fn pos(&mut self) -> (r: Result<ScreenPoint, ProtocolError>)
        ensures
            r matches Err(e) ==> e == ProtocolError::EngineGone || e
                == ProtocolError::UnexpectedResponse,
    {
        match self.do_data(DataCmd::Position) {
            Ok(resp) => decode_position(resp),
            Err(e) => Err(e),
        }
    }

    /// The turtle's heading in millidegrees: issues the query and decodes
    /// the engine's answer through `decode_heading`.
    pub fn heading(&mut self) -> (r: Result<i64, ProtocolError>)
        ensures
            r matches Err(e) ==> e == ProtocolError::EngineGone || e
                == ProtocolError::UnexpectedResponse,
    {
        match self.do_data(DataCmd::Heading) {
            Ok(resp) => decode_heading(resp),
            Err(e) => Err(e),
        }
    }

    /// Asks the user for a number, in milliunits; `Ok(None)` is an
    /// explicit cancellation.  The dialog's answer is decoded through
    /// `decode_num_input`.
    pub fn numinput(&mut self, title: &str, prompt: &str) -> (r: Result<Option<i64>, ProtocolError>)
        ensures
            r matches Err(e) ==> e == ProtocolError::EngineGone || e
                == ProtocolError::UnexpectedResponse,
    {
        match self.do_input(InputCmd::NumInput(title.to_owned(), prompt.to_owned())) {
            Ok(resp) => decode_num_input(resp),
            Err(e) => Err(e),
        }
    }

    /// Asks the user for a line of text; `Ok(None)` is an explicit
    /// cancellation.  The dialog's answer is decoded through
    /// `decode_text_input`.
    pub fn textinput(&mut self, title: &str, prompt: &str) -> (r: Result<
        Option<String>,
        ProtocolError,
    >)
        ensures
            r matches Err(e) ==> e == ProtocolError::EngineGone || e
                == ProtocolError::UnexpectedResponse,
    {
        match self.do_input(InputCmd::TextInput(title.to_owned(), prompt.to_owned())) {
            Ok(resp) => decode_text_input(resp),
            Err(e) => Err(e),
        }
    }
}

/// Decodes an undo-count answer: a count is the value, any other shape is
/// the engine answering the wrong query.
pub fn decode_count(resp: Response) -> (r: Result<usize, ProtocolError>)
    ensures
        resp matches Response::Count(n) ==> r == Ok::<usize, ProtocolError>(n),
        !(resp matches Response::Count(_)) ==> r == Err::<usize, ProtocolError>(
            ProtocolError::UnexpectedResponse,
        ),
{
    match resp {
        Response::Count(n) => Ok(n),
        _ => Err(ProtocolError::UnexpectedResponse),
    }
}

/// Decodes a position answer: a position is the value, any other shape is
/// the engine answering the wrong query.
pub fn decode_position(resp: Response) -> (r: Result<ScreenPoint, ProtocolError>)
    ensures
        resp matches Response::Position(p) ==> r == Ok::<ScreenPoint, ProtocolError>(p),
        !(resp matches Response::Position(_)) ==> r == Err::<ScreenPoint, ProtocolError>(
            ProtocolError::UnexpectedResponse,
        ),
{
    match resp {
        Response::Position(p) => Ok(p),
        _ => Err(ProtocolError::UnexpectedResponse),
    }
}

/// Decodes a heading answer: a heading is the value, any other shape is
/// the engine answering the wrong query.
pub fn decode_heading(resp: Response) -> (r: Result<i64, ProtocolError>)
    ensures
        resp matches Response::Heading(h) ==> r == Ok::<i64, ProtocolError>(h),
        !(resp matches Response::Heading(_)) ==> r == Err::<i64, ProtocolError>(
            ProtocolError::UnexpectedResponse,
        ),
{
    match resp {
        Response::Heading(h) => Ok(h),
        _ => Err(ProtocolError::UnexpectedResponse),
    }
}

/// Decodes a numeric dialog answer: a number is the value, a cancellation
/// is `None`, any other shape is the engine answering the wrong query.
pub fn decode_num_input(resp: Response) -> (r: Result<Option<i64>, ProtocolError>)
    ensures
        resp matches Response::Num(v) ==> r == Ok::<Option<i64>, ProtocolError>(Some(v)),
        resp matches Response::Cancelled ==> r == Ok::<Option<i64>, ProtocolError>(None),
        !(resp matches Response::Num(_)) && !(resp matches Response::Cancelled) ==> r == Err::<
            Option<i64>,
            ProtocolError,
        >(ProtocolError::UnexpectedResponse),
{
    match resp {
        Response::Num(v) => Ok(Some(v)),
        Response::Cancelled => Ok(None),
        _ => Err(ProtocolError::UnexpectedResponse),
    }
}

/// Decodes a text dialog answer: a text is the value, a cancellation is
/// `None`, any other shape is the engine answering the wrong query.
pub fn decode_text_input(resp: Response) -> (r: Result<Option<String>, ProtocolError>)
    ensures
        resp matches Response::Text(t) ==> r == Ok::<Option<String>, ProtocolError>(Some(t)),
        resp matches Response::Cancelled ==> r == Ok::<Option<String>, ProtocolError>(None),
        !(resp matches Response::Text(_)) && !(resp matches Response::Cancelled) ==> r == Err::<
            Option<String>,
            ProtocolError,
        >(ProtocolError::UnexpectedResponse),
{
    match resp {
        Response::Text(t) => Ok(Some(t)),
        Response::Cancelled => Ok(None),
        _ => Err(ProtocolError::UnexpectedResponse),
    }
}

} // verus!
