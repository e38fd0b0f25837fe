//! Turtle-graphics runtime core: a verified state-transition engine that maps
//! abstract pen-and-motion commands to renderer-agnostic draw commands, plus
//! the undo history and the request/response command protocol around it.
//!
//! All scalar quantities are exact fixed-point integers: lengths and
//! coordinates in thousandths of a canvas unit ("milliunits"), headings in
//! thousandths of a degree ("millidegrees").  The turtle pose is a pure
//! rotation plus translation, so it is represented exactly by a heading
//! angle together with a position.
//!
//! The crate root holds the engine context: it owns every turtle's state
//! and history, applies drawing requests through the state machine, answers
//! data queries, and hands screen and input commands to the embedding GUI.
use vstd::prelude::*;

pub mod channel;
pub mod color_names;
pub mod command;
pub mod fixed;
pub mod generate;
pub mod laws;
pub mod polygon;
pub mod render;
pub mod turtle;
pub mod undo;

verus! {

use crate::command::{DataCmd, DrawRequest, Request, Response, TimedDrawCmd, InstantaneousDrawCmd};
use crate::generate::{
    CurrentTurtleState, DrawCommand, draw_commands_equal, model_point_x, model_point_y,
    output_matches, req_ok, state_after,
};
use crate::undo::{UndoEntry, UndoLog};

/// The compact stroke-command alphabet of the minimal renderer loop: a
/// direct drawing language without the request/response protocol around it.
/// Distances are in milliunits, rotations in millidegrees.
#[derive(Clone, Copy, Debug, PartialEq, Eq, Structural)]
pub enum Command {
    Forward(i64),
    Right(i64),
    Left(i64),
    PenDown,
    PenUp,
    GoTo(i64, i64),
    ClearScreen,
}

/// The signed heading change a stroke command contributes, in millidegrees.
pub open spec fn rotation_of(c: Command) -> int {
    match c {
        Command::Right(deg) => deg as int,
        Command::Left(deg) => -(deg as int),
        _ => 0,
    }
}

impl Command {
    /// The signed heading change this command contributes.
    pub fn get_rotation(&self) -> (r: i64)
        requires
            *self matches Command::Left(d) ==> d > i64::MIN,
        ensures
            r as int == rotation_of(*self),
    {
        match self {
            Command::Right(deg) => *deg,
            Command::Left(deg) => -*deg,
            _ => 0,
        }
    }
}

/// The engine-side data of one turtle: its pose, its undo history, and
/// the animation progress of its in-flight command, in milli (1000 is
/// complete).  Each turtle's command animates independently.
#[derive(Debug)]
pub struct TurtleData {
    pub state: CurrentTurtleState,
    pub undo: UndoLog,
    pub progress: i64,
}

impl TurtleData {
    /// The pose keeps its machine bounds, and so does every snapshot in the
    /// history — an undo restores a well-formed pose — and the animation
    /// progress never runs backwards past zero.
    pub open spec fn wf(&self) -> bool {
        &&& self.state.wf()
        &&& forall|k: int|
            0 <= k < self.undo@.len() ==> (#[trigger] self.undo@[k]).pre_state.wf()
        &&& 0 <= self.progress
    }
}

/// Replacing one turtle's data with well-formed data keeps every turtle
/// well-formed.
proof fn lemma_wf_after_update(
    pre: Seq<TurtleData>,
    post: Seq<TurtleData>,
    id: int,
    unit: TurtleData,
)
    requires
        post == pre.update(id, unit),
        0 <= id < pre.len(),
        forall|i: int| 0 <= i < pre.len() ==> (#[trigger] pre[i]).wf(),
        unit.wf(),
    ensures
        forall|i: int| 0 <= i < post.len() ==> (#[trigger] post[i]).wf(),
{
    assert forall|i: int| 0 <= i < post.len() implies (#[trigger] post[i]).wf() by {
        if i != id {
            assert(pre[i].wf());
        }
    }
}

/// Which drawing requests mutate the turtle state and are therefore
/// recorded in the undo history: motions, rotations, circles, pen state,
/// pen width and fill colour.  Purely emitting requests (a dot, a stamp, a
/// pen-colour change, a polygon fill) leave the state alone and are not
/// recorded.
pub open spec fn mutates_state(req: DrawRequest) -> bool {
    match req {
        DrawRequest::TimedDraw(td) => match td {
            TimedDrawCmd::Motion(_) => true,
            TimedDrawCmd::Rotate(_) => true,
            TimedDrawCmd::Circle(..) => true,
            TimedDrawCmd::Undo => false,
        },
        DrawRequest::InstantaneousDraw(id) => match id {
            InstantaneousDrawCmd::PenDown => true,
            InstantaneousDrawCmd::PenUp => true,
            InstantaneousDrawCmd::PenWidth(_) => true,
            InstantaneousDrawCmd::FillColor(_) => true,
            _ => false,
        },
    }
}

/// Whether a drawing request is of a mutating kind.
pub fn is_mutating(req: &DrawRequest) -> (r: bool)
    ensures
        r == mutates_state(*req),
{
    match req {
        DrawRequest::TimedDraw(td) => match td {
            TimedDrawCmd::Motion(_) => true,
            TimedDrawCmd::Rotate(_) => true,
            TimedDrawCmd::Circle(..) => true,
            TimedDrawCmd::Undo => false,
        },
        DrawRequest::InstantaneousDraw(id) => match id {
            InstantaneousDrawCmd::PenDown => true,
            InstantaneousDrawCmd::PenUp => true,
            InstantaneousDrawCmd::PenWidth(_) => true,
            InstantaneousDrawCmd::FillColor(_) => true,
            _ => false,
        },
    }
}

/// What handling one drawing request produced.
#[derive(Debug)]
pub enum DrawOutcome {
    /// The request was applied; the emitted draw command, if any.
    Applied(Option<DrawCommand>),
    /// An undo was performed; the popped history entry tells the renderer
    /// what to retract (`None`: the history was empty, nothing happened).
    Undone(Option<UndoEntry>),
    /// The request was rejected as degenerate or out-of-bounds input.
    Rejected,
}

/// Structural equality of optional draw commands.
pub open spec fn option_commands_equal(a: Option<DrawCommand>, b: Option<DrawCommand>) -> bool {
    match (a, b) {
        (Some(x), Some(y)) => draw_commands_equal(&x, &y),
        (None, None) => true,
        _ => false,
    }
}

/// How one turtle's data changes when one drawing request is handled, and
/// what outcome the engine reports.
pub open spec fn draw_transition(
    pre: TurtleData,
    post: TurtleData,
    req: DrawRequest,
    out: DrawOutcome,
) -> bool {
    if req matches DrawRequest::TimedDraw(TimedDrawCmd::Undo) {
        if pre.undo@.len() == 0 {
            &&& post.state == pre.state
            &&& post.undo@ == pre.undo@
            &&& (out matches DrawOutcome::Undone(p) && p is None)
        } else {
            &&& post.state == pre.undo@.last().pre_state
            &&& post.undo@ == pre.undo@.drop_last()
            &&& (out matches DrawOutcome::Undone(p) && p matches Some(e) && e == pre.undo@.last())
        }
    } else if !req_ok(pre.state@, req) {
        &&& post.state == pre.state
        &&& post.undo@ == pre.undo@
        &&& out is Rejected
    } else {
        &&& post.state@ == state_after(pre.state@, req)
        &&& post.state.wf()
        &&& (out matches DrawOutcome::Applied(res) && output_matches(pre.state@, req, res))
        &&& if mutates_state(req) {
            &&& post.undo@.len() == pre.undo@.len() + 1
            &&& post.undo@.last().pre_state == pre.state
            &&& post.undo@.last().request == req
            &&& (out matches DrawOutcome::Applied(res) && option_commands_equal(
                post.undo@.last().command,
                res,
            ))
            &&& post.undo@.drop_last() == pre.undo@
        } else {
            post.undo@ == pre.undo@
        }
    }
}

/// After any applied command of a mutating kind, an undo restores the
/// turtle's data exactly: the state returns to the snapshot taken before
/// the mutation, the history returns to what it was, and the popped entry
/// carries that snapshot.
pub proof fn lemma_mutate_then_undo(
    pre: TurtleData,
    mid: TurtleData,
    post: TurtleData,
    req: DrawRequest,
    applied: DrawOutcome,
    undone: DrawOutcome,
)
    requires
        !(req matches DrawRequest::TimedDraw(TimedDrawCmd::Undo)),
        req_ok(pre.state@, req),
        mutates_state(req),
        draw_transition(pre, mid, req, applied),
        draw_transition(mid, post, DrawRequest::TimedDraw(TimedDrawCmd::Undo), undone),
    ensures
        post.state == pre.state,
        post.undo@ == pre.undo@,
        undone matches DrawOutcome::Undone(p) && p matches Some(e) && e.pre_state == pre.state,
{
}

/// The answer a data query receives, determined by the turtle's data.
pub open spec fn data_response_matches(d: TurtleData, cmd: DataCmd, resp: Response) -> bool {
    match cmd {
        DataCmd::Position => resp matches Response::Position(p) && p.x == model_point_x(d.state@)
            && p.y == model_point_y(d.state@),
        DataCmd::Heading => resp matches Response::Heading(h) && h == d.state@.angle,
        DataCmd::UndoBufferEntries => resp matches Response::Count(n) && n == d.undo@.len(),
    }
}

/// What the engine did with one protocol request.
#[derive(Debug)]
pub enum EngineAction {
    /// A drawing request was handled.
    Draw(DrawOutcome),
    /// A data query was answered.
    Data(Response),
    /// A screen or input command, handed back for the embedding GUI.
    External(crate::command::Command),
    /// The request named a turtle the engine does not know.
    UnknownTurtle,
}

/// The engine context: owns every turtle's state and history, applies
/// drawing requests, answers data queries, and throttles the animation of
/// each turtle's in-flight command.
#[derive(Debug)]
pub struct TurtleTask {
    pub turtles: Vec<TurtleData>,
}

impl TurtleTask {
    /// Every turtle the engine owns keeps its pose within machine bounds,
    /// in its current state and in every history snapshot.
    pub open spec fn wf(&self) -> bool {
        forall|i: int| 0 <= i < self.turtles@.len() ==> (#[trigger] self.turtles@[i]).wf()
    }

    /// An engine with no turtles.
    pub fn new() -> (t: Self)
        ensures
            t.turtles@.len() == 0,
            t.wf(),
    {
        TurtleTask { turtles: Vec::new() }
    }

    /// Adds a fresh turtle and returns its identifier.
    pub fn add_turtle(&mut self) -> (id: usize)
        requires
            old(self).wf(),
            old(self).turtles@.len() < usize::MAX,
        ensures
            final(self).wf(),
            id == old(self).turtles@.len(),
            final(self).turtles@.len() == old(self).turtles@.len() + 1,
            forall|j: int|
                0 <= j < old(self).turtles@.len() ==> final(self).turtles@[j] == old(self).turtles@[j],
            final(self).turtles@.last().state@ == crate::generate::initial_model(),
            final(self).turtles@.last().undo@.len() == 0,
            final(self).turtles@.last().progress == 0,
    {
        let data = TurtleData {
            state: CurrentTurtleState::default(),
            undo: UndoLog::new(),
            progress: 0,
        };
        self.turtles.push(data);
        self.turtles.len() - 1
    }

    /// Handles one drawing request for the turtle `id`: an undo request
    /// rolls the history back one entry; any other request is validated,
    /// applied through the state machine, and, when of a mutating kind,
    /// recorded in the history with the snapshot taken before the
    /// mutation.  Degenerate input (a zero-step circle, an out-of-bounds
    /// motion) is rejected and changes nothing.
    pub fn handle_draw(&mut self, id: usize, req: DrawRequest) -> (out: DrawOutcome)
        requires
            old(self).wf(),
            id < old(self).turtles@.len(),
        ensures
            final(self).wf(),
            final(self).turtles@.len() == old(self).turtles@.len(),
            forall|j: int|
                0 <= j < old(self).turtles@.len() && j != id ==> final(self).turtles@[j] == old(self).turtles@[j],
            draw_transition(
                old(self).turtles@[id as int],
                final(self).turtles@[id as int],
                req,
                out,
            ),
            final(self).turtles@[id as int].progress == old(self).turtles@[id as int].progress,
    {
        let ghost pre_all = self.turtles@;
        let mut unit = self.turtles.remove(id);
        let out;
        if matches!(req, DrawRequest::TimedDraw(TimedDrawCmd::Undo)) {
            let popped = unit.undo.undo(&mut unit.state);
            out = DrawOutcome::Undone(popped);
        } else if !unit.state.check_request(&req) {
            out = DrawOutcome::Rejected;
        } else {
            let pre = unit.state;
            let res = unit.state.apply(&req);
            if is_mutating(&req) {
                let ghost pre_log = unit.undo@;
                let dup = match &res {
                    Some(c) => Some(c.duplicate()),
                    None => None,
                };
                unit.undo.record(pre, req, dup);
                proof {
                    assert(unit.undo@.drop_last() =~= pre_log);
                }
            }
            out = DrawOutcome::Applied(res);
        }
        self.turtles.insert(id, unit);
        proof {
            assert(self.turtles@ =~= pre_all.update(id as int, unit));
            lemma_wf_after_update(pre_all, self.turtles@, id as int, unit);
        }
        out
    }

    /// Answers one synchronous data query from the turtle's current data,
    /// with no animation delay and no state change.
    pub fn handle_data(&self, id: usize, cmd: &DataCmd) -> (resp: Response)
        requires
            self.wf(),
            id < self.turtles@.len(),
        ensures
            data_response_matches(self.turtles@[id as int], *cmd, resp),
    {
        let unit = &self.turtles[id];
        match cmd {
            DataCmd::Position => Response::Position(unit.state.get_point()),
            DataCmd::Heading => Response::Heading(unit.state.angle()),
            DataCmd::UndoBufferEntries => Response::Count(unit.undo.undo_count()),
        }
    }

    /// Routes one protocol request: drawing requests go through the state
    /// machine, data queries are answered immediately, and screen and
    /// input commands are handed back for the embedding GUI to perform.
    pub fn handle_command(&mut self, req: Request) -> (act: EngineAction)
        requires
            old(self).wf(),
        ensures
            final(self).wf(),
            final(self).turtles@.len() == old(self).turtles@.len(),
            (req.cmd matches crate::command::Command::Screen(_) || req.cmd
                matches crate::command::Command::Input(_)) ==> (act
                matches EngineAction::External(c) && c == req.cmd && final(self).turtles@ == old(self).turtles@),
            (req.turtle_id as int >= old(self).turtles@.len() && (req.cmd
                matches crate::command::Command::Draw(_) || req.cmd
                matches crate::command::Command::Data(_))) ==> (act is UnknownTurtle && final(self).turtles@ == old(self).turtles@),
            (req.turtle_id as int) < old(self).turtles@.len() ==> (match req.cmd {
                crate::command::Command::Draw(d) => act matches EngineAction::Draw(out)
                    && draw_transition(
                    old(self).turtles@[req.turtle_id as int],
                    final(self).turtles@[req.turtle_id as int],
                    d,
                    out,
                ) && (forall|j: int|
                    0 <= j < old(self).turtles@.len() && j != req.turtle_id as int ==> final(self).turtles@[j] == old(self).turtles@[j]),
                crate::command::Command::Data(dc) => act matches EngineAction::Data(r)
                    && data_response_matches(old(self).turtles@[req.turtle_id as int], dc, r)
                    && final(self).turtles@ == old(self).turtles@,
                _ => true,
            }),
    {
        match req.cmd {
            crate::command::Command::Draw(d) => {
                if req.turtle_id >= self.turtles.len() as u64 {
                    EngineAction::UnknownTurtle
                } else {
                    let id = req.turtle_id as usize;
                    EngineAction::Draw(self.handle_draw(id, d))
                }
            },
            crate::command::Command::Data(dc) => {
                if req.turtle_id >= self.turtles.len() as u64 {
                    EngineAction::UnknownTurtle
                } else {
                    let id = req.turtle_id as usize;
                    EngineAction::Data(self.handle_data(id, &dc))
                }
            },
            crate::command::Command::Screen(sc) => EngineAction::External(
                crate::command::Command::Screen(sc),
            ),
            crate::command::Command::Input(ic) => EngineAction::External(
                crate::command::Command::Input(ic),
            ),
        }
    }

    /// Advances the animation clock of one turtle's in-flight command by
    /// the elapsed time, in milliseconds; progress accrues thirty parts
    /// per thousand per millisecond and stops accruing once complete.
    /// Each turtle's command progresses independently.
    pub fn update(&mut self, id: usize, dt_milli: i64)
        requires
            old(self).wf(),
            id < old(self).turtles@.len(),
            0 <= dt_milli <= 1_000_000,
        ensures
            final(self).wf(),
            final(self).turtles@.len() == old(self).turtles@.len(),
            forall|j: int|
                0 <= j < old(self).turtles@.len() && j != id ==> final(self).turtles@[j] == old(
                    self,
                ).turtles@[j],
            final(self).turtles@[id as int].progress == if old(
                self,
            ).turtles@[id as int].progress < 1000 {
                old(self).turtles@[id as int].progress + 30 * dt_milli
            } else {
                old(self).turtles@[id as int].progress as int
            },
            final(self).turtles@[id as int].state == old(self).turtles@[id as int].state,
            final(self).turtles@[id as int].undo@ == old(self).turtles@[id as int].undo@,
    {
        let ghost pre_all = self.turtles@;
        let mut unit = self.turtles.remove(id);
        if unit.progress < 1000 {
            unit.progress = unit.progress + 30 * dt_milli;
        }
        self.turtles.insert(id, unit);
        proof {
            assert(self.turtles@ =~= pre_all.update(id as int, unit));
            lemma_wf_after_update(pre_all, self.turtles@, id as int, unit);
        }
    }

    /// One turtle's in-flight progress clamped to complete, in milli.
    pub fn current_progress(&self, id: usize) -> (p: i64)
        requires
            id < self.turtles@.len(),
        ensures
            p == if self.turtles@[id as int].progress < 1000 {
                self.turtles@[id as int].progress as int
            } else {
                1000int
            },
    {
        let unit = &self.turtles[id];
        if unit.progress < 1000 {
            unit.progress
        } else {
            1000
        }
    }

    /// Whether one turtle's in-flight command has finished animating.
    pub fn command_done(&self, id: usize) -> (b: bool)
        requires
            id < self.turtles@.len(),
        ensures
            b == (self.turtles@[id as int].progress >= 1000),
    {
        self.turtles[id].progress >= 1000
    }

    /// Restarts one turtle's animation clock for a newly begun command.
    pub fn begin_command(&mut self, id: usize)
        requires
            old(self).wf(),
            id < old(self).turtles@.len(),
        ensures
            final(self).wf(),
            final(self).turtles@.len() == old(self).turtles@.len(),
            forall|j: int|
                0 <= j < old(self).turtles@.len() && j != id ==> final(self).turtles@[j] == old(
                    self,
                ).turtles@[j],
            final(self).turtles@[id as int].progress == 0,
            final(self).turtles@[id as int].state == old(self).turtles@[id as int].state,
            final(self).turtles@[id as int].undo@ == old(self).turtles@[id as int].undo@,
    {
        let ghost pre_all = self.turtles@;
        let mut unit = self.turtles.remove(id);
        unit.progress = 0;
        self.turtles.insert(id, unit);
        proof {
            assert(self.turtles@ =~= pre_all.update(id as int, unit));
            lemma_wf_after_update(pre_all, self.turtles@, id as int, unit);
        }
    }
}

} // verus!
