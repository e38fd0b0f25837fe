//! The command protocol: the requests a script issues for one turtle and the
//! responses the engine sends back.
//!
//! Every request belongs to one of four families: drawing (motion, rotation,
//! circles and instantaneous pen changes), screen control, user input, and
//! synchronous data queries.  Lengths and coordinates are in milliunits,
//! angles in millidegrees.
use vstd::prelude::*;

use crate::color_names::TurtleColor;
use crate::polygon::{ScreenPoint, TurtlePolygon};

verus! {

/// A motion of the pen: relative, absolute, or along one axis.
#[derive(Clone, Copy, Debug, PartialEq, Eq, Structural)]
pub enum MotionCmd {
    Forward(i64),
    Teleport(i64, i64),
    GoTo(i64, i64),
    SetX(i64),
    SetY(i64),
}

/// A change of heading: relative to the current heading or absolute.
#[derive(Clone, Copy, Debug, PartialEq, Eq, Structural)]
pub enum RotateCmd {
    Right(i64),
    Left(i64),
    SetHeading(i64),
}

/// A drawing command that the engine animates over time.
#[derive(Clone, Copy, Debug, PartialEq, Eq, Structural)]
pub enum TimedDrawCmd {
    /// A motion of the pen.
    Motion(MotionCmd),
    /// A change of heading.
    Rotate(RotateCmd),
    /// An arc approximated by chords: radius, extent and number of steps.
    Circle(i64, i64, u32),
    /// Roll back the most recent recorded command.
    Undo,
}

/// A drawing command that takes effect immediately.
#[derive(Debug, Clone, PartialEq)]
pub enum InstantaneousDrawCmd {
    /// Switch animation tracing on or off; no state effect, no output.
    Tracer(bool),
    /// Mark the start of a fillable region.
    BackfillPolygon,
    PenDown,
    PenUp,
    PenColor(TurtleColor),
    FillColor(TurtleColor),
    PenWidth(i64),
    /// A dot of the given diameter (`None` takes the pen width) and colour
    /// (`CurrentColor` takes the fill colour).
    Dot(Option<i64>, TurtleColor),
    /// Place a persistent copy of the turtle's shape on the canvas.
    Stamp(bool),
    /// Fill the given polygon.
    Fill(TurtlePolygon),
}

/// One drawing request for the turtle state machine.
#[derive(Debug, Clone, PartialEq)]
pub enum DrawRequest {
    TimedDraw(TimedDrawCmd),
    InstantaneousDraw(InstantaneousDrawCmd),
}

/// A window-level operation, handled by the renderer rather than the engine
/// core.
#[derive(Debug, Clone, PartialEq)]
pub enum ScreenCmd {
    ClearScreen,
    Background(TurtleColor),
}

/// A request for user input, answered by an external dialog: a title and a
/// prompt.
#[derive(Debug, Clone, PartialEq)]
pub enum InputCmd {
    NumInput(String, String),
    TextInput(String, String),
}

/// A synchronous query answered immediately from the turtle's state.
#[derive(Clone, Copy, Debug, PartialEq, Eq, Structural)]
pub enum DataCmd {
    Position,
    Heading,
    UndoBufferEntries,
}

/// A command of one of the four protocol families.
#[derive(Debug, Clone, PartialEq)]
pub enum Command {
    Draw(DrawRequest),
    Screen(ScreenCmd),
    Input(InputCmd),
    Data(DataCmd),
}

/// One request of the protocol: a command addressed to one turtle.
#[derive(Debug, Clone, PartialEq)]
pub struct Request {
    pub turtle_id: u64,
    pub cmd: Command,
}

/// A fatal protocol failure.  The protocol has no retries: a script that
/// sees either error must give up on the engine.
#[derive(Clone, Copy, Debug, PartialEq, Eq, Structural)]
pub enum ProtocolError {
    /// The engine context is gone (its channel closed); non-retryable.
    EngineGone,
    /// The engine answered with a response of the wrong shape.
    UnexpectedResponse,
}

/// One response of the protocol.  Every request is answered by exactly one
/// response.
#[derive(Debug, Clone, PartialEq)]
pub enum Response {
    /// The command completed.
    Done,
    /// The turtle's position in rounded canvas coordinates.
    Position(ScreenPoint),
    /// The turtle's heading in millidegrees.
    Heading(i64),
    /// The number of entries available to undo.
    Count(usize),
    /// A numeric input value in milliunits.
    Num(i64),
    /// A text input value.
    Text(String),
    /// The user cancelled an input dialog.
    Cancelled,
}

} // verus!
