//! The turtle state machine: the pose of one turtle and the mapping from
//! drawing requests to renderer-agnostic draw commands.
//!
//! The pose is a pure rotation plus translation, so it is represented
//! exactly by a heading angle in millidegrees together with a position in
//! milliunits; composing a rotation only turns the heading, and composing a
//! translation moves the position along the heading.  Every transition is
//! specified against `TurtleModel`, the same pose over unbounded integers.
use vstd::prelude::*;

use crate::color_names::TurtleColor;
use crate::command::{DrawRequest, InstantaneousDrawCmd, MotionCmd, RotateCmd, TimedDrawCmd};
use crate::fixed::{
    abs_i, cos_mdeg, div_round, div_trunc, round_div, sin_mdeg, spec_cos, spec_sin, trunc_div,
    lemma_round_div_bound, MAX_ANGLE, MAX_COORD, MAX_DISTANCE, MAX_HEADING, MAX_ROTATION,
    MAX_STEPS, MAX_WIDTH,
};
use crate::polygon::{ExactPoint, ScreenPoint, TurtlePolygon};

verus! {

/// A line segment between two rounded canvas points; `pen_down` tells the
/// renderer whether the segment is a visible stroke or a plain move.
#[derive(Clone, Copy, Debug, PartialEq, Eq, Structural)]
pub struct LineInfo {
    pub begin: ScreenPoint,
    pub end: ScreenPoint,
    pub pen_down: bool,
}

/// One sampled position along a circle: the heading and the rounded canvas
/// point when the sample was taken, and whether the pen was down.
#[derive(Clone, Copy, Debug, PartialEq, Eq, Structural)]
pub struct CirclePos {
    pub angle: i64,
    pub x: i64,
    pub y: i64,
    pub pen_down: bool,
}

impl CirclePos {
    /// The sample as a heading plus a canvas point.
    pub fn get_data(&self) -> (r: (i64, ScreenPoint))
        ensures
            r.0 == self.angle,
            r.1 == (ScreenPoint { x: self.x, y: self.y }),
    {
        (self.angle, ScreenPoint { x: self.x, y: self.y })
    }
}

/// A renderer-agnostic draw command, the output alphabet of the state
/// machine.
#[derive(Debug, Clone, PartialEq)]
pub enum DrawCommand {
    /// Marker that starts recording a fillable region.
    Filler,
    /// Place a persistent copy of the turtle's shape at the current pose.
    StampTurtle,
    Line(LineInfo),
    SetPenColor(TurtleColor),
    SetPenWidth(i64),
    SetFillColor(TurtleColor),
    DrawPolygon(TurtlePolygon),
    /// A heading change: the heading before and after, in millidegrees.
    SetHeading(i64, i64),
    /// A dot: exact centre, diameter in milliunits, resolved colour.
    DrawDot(ExactPoint, i64, TurtleColor),
    /// Close the fillable region opened by the `Filler` at the given index.
    EndFill(usize),
    /// A stamped polygon: shape, position and heading.
    DrawPolyAt(TurtlePolygon, ExactPoint, i64),
    /// Sampled positions along an arc.
    Circle(Vec<CirclePos>),
}

/// Whether a draw command placed a durable shape copy on the canvas, which
/// undo must remove specially, rather than a transient stroke.
pub open spec fn is_stamp_spec(c: &DrawCommand) -> bool {
    c matches DrawCommand::DrawPolyAt(..)
}

impl DrawCommand {
    /// True only for the stamped-copy variant.
    pub fn is_stamp(&self) -> (r: bool)
        ensures
            r == is_stamp_spec(self),
    {
        matches!(self, DrawCommand::DrawPolyAt(..))
    }

    /// An exact copy of this draw command.
    pub fn duplicate(&self) -> (r: Self)
        ensures
            draw_commands_equal(self, &r),
    {
        match self {
            DrawCommand::Filler => DrawCommand::Filler,
            DrawCommand::StampTurtle => DrawCommand::StampTurtle,
            DrawCommand::Line(li) => DrawCommand::Line(*li),
            DrawCommand::SetPenColor(c) => DrawCommand::SetPenColor(*c),
            DrawCommand::SetPenWidth(w) => DrawCommand::SetPenWidth(*w),
            DrawCommand::SetFillColor(c) => DrawCommand::SetFillColor(*c),
            DrawCommand::DrawPolygon(p) => DrawCommand::DrawPolygon(p.duplicate()),
            DrawCommand::SetHeading(f, t) => DrawCommand::SetHeading(*f, *t),
            DrawCommand::DrawDot(p, s, c) => DrawCommand::DrawDot(*p, *s, *c),
            DrawCommand::EndFill(i) => DrawCommand::EndFill(*i),
            DrawCommand::DrawPolyAt(p, pos, a) => DrawCommand::DrawPolyAt(
                p.duplicate(),
                *pos,
                *a,
            ),
            DrawCommand::Circle(v) => DrawCommand::Circle(copy_circle_samples(v)),
        }
    }
}

/// Structural equality of draw commands, comparing vector contents by view.
pub open spec fn draw_commands_equal(a: &DrawCommand, b: &DrawCommand) -> bool {
    match (a, b) {
        (DrawCommand::DrawPolygon(p), DrawCommand::DrawPolygon(q)) => p.vertices@ == q.vertices@,
        (DrawCommand::DrawPolyAt(p, pp, pa), DrawCommand::DrawPolyAt(q, qp, qa)) => p.vertices@
            == q.vertices@ && pp == qp && pa == qa,
        (DrawCommand::Circle(v), DrawCommand::Circle(w)) => v@ == w@,
        _ => a == b,
    }
}

/// An element-by-element copy of circle samples.
fn copy_circle_samples(v: &Vec<CirclePos>) -> (r: Vec<CirclePos>)
    ensures
        r@ == v@,
{
    let n = v.len();
    let mut r: Vec<CirclePos> = Vec::new();
    let mut i: usize = 0;
    while i < n
        invariant
            i <= n,
            n == v@.len(),
            r@ == v@.take(i as int),
        decreases n - i,
    {
        r.push(v[i]);
        proof {
            assert(r@ =~= v@.take(i as int + 1));
        }
        i += 1;
    }
    proof {
        assert(v@.take(n as int) =~= v@);
    }
    r
}

/// The pose and pen of one turtle over unbounded integers: the ghost model
/// every transition is specified against.
pub ghost struct TurtleModel {
    pub x: int,
    pub y: int,
    pub angle: int,
    pub pen_down: bool,
    pub pen_width: int,
    pub fill_color: TurtleColor,
}

/// The pose and pen of one turtle: position in milliunits, heading in
/// millidegrees (unbounded, never wrapped), pen state, pen width in
/// milliunits and fill colour.
#[derive(Clone, Copy, Debug, PartialEq, Eq, Structural)]
pub struct CurrentTurtleState {
    pub x: i64,
    pub y: i64,
    pub angle: i64,
    pub pen_down: bool,
    pub pen_width: i64,
    pub fill_color: TurtleColor,
}

impl View for CurrentTurtleState {
    type V = TurtleModel;

    open spec fn view(&self) -> TurtleModel {
        TurtleModel {
            x: self.x as int,
            y: self.y as int,
            angle: self.angle as int,
            pen_down: self.pen_down,
            pen_width: self.pen_width as int,
            fill_color: self.fill_color,
        }
    }
}

impl Default for CurrentTurtleState {
    /// A fresh turtle: at the origin, heading zero, pen down, pen width one
    /// half unit, filling with black.
    fn default() -> (s: Self)
        ensures
            s@ == initial_model(),
            s.wf(),
    {
        CurrentTurtleState {
            x: 0,
            y: 0,
            angle: 0,
            pen_down: true,
            pen_width: 500,
            fill_color: TurtleColor::Color(0, 0, 0),
        }
    }
}

/// The model of a fresh turtle.
pub open spec fn initial_model() -> TurtleModel {
    TurtleModel {
        x: 0,
        y: 0,
        angle: 0,
        pen_down: true,
        pen_width: 500,
        fill_color: TurtleColor::Color(0u8, 0u8, 0u8),
    }
}

/// The canvas point of a pose, rounded to whole units.
pub open spec fn model_point_x(m: TurtleModel) -> int {
    round_div(m.x, 1000)
}

/// The canvas point of a pose, rounded to whole units.
pub open spec fn model_point_y(m: TurtleModel) -> int {
    round_div(m.y, 1000)
}

impl CurrentTurtleState {
    /// Machine bounds on the pose: every reachable state keeps them, given
    /// validated requests.
    pub open spec fn wf(&self) -> bool {
        &&& abs_i(self.x as int) <= MAX_COORD
        &&& abs_i(self.y as int) <= MAX_COORD
        &&& abs_i(self.angle as int) <= MAX_ANGLE
        &&& abs_i(self.pen_width as int) <= MAX_WIDTH
    }

    /// The heading in millidegrees.
    pub fn angle(&self) -> (a: i64)
        ensures
            a == self@.angle,
    {
        self.angle
    }

    /// Whether the pen is down.
    pub fn is_pen_down(&self) -> (b: bool)
        ensures
            b == self@.pen_down,
    {
        self.pen_down
    }

    /// The pen width in milliunits.
    pub fn pen_width(&self) -> (w: i64)
        ensures
            w == self@.pen_width,
    {
        self.pen_width
    }

    /// The fill colour.
    pub fn fill_color(&self) -> (c: TurtleColor)
        ensures
            c == self@.fill_color,
    {
        self.fill_color
    }

    /// The exact position in milliunits.
    pub fn pos(&self) -> (p: ExactPoint)
        ensures
            p.x == self@.x,
            p.y == self@.y,
    {
        ExactPoint { x: self.x, y: self.y }
    }

    /// The position rounded to whole canvas units.
    pub fn get_point(&self) -> (p: ScreenPoint)
        requires
            self.wf(),
        ensures
            p.x == model_point_x(self@),
            p.y == model_point_y(self@),
    {
        ScreenPoint { x: div_round(self.x, crate::fixed::MILLI), y: div_round(self.y, crate::fixed::MILLI) }
    }

    /// One circle sample at the current pose.
    fn get_circlepos(&self) -> (c: CirclePos)
        requires
            self.wf(),
        ensures
            sample_matches(c, circle_sample(self@)),
    {
        let p = self.get_point();
        CirclePos { angle: self.angle, x: p.x, y: p.y, pen_down: self.pen_down }
    }

    /// Turns the pose by `a` millidegrees.
    fn rot_deg(&mut self, a: i64)
        requires
            abs_i(old(self).angle as int) + abs_i(a as int) <= MAX_ANGLE,
        ensures
            final(self)@ == (TurtleModel { angle: old(self)@.angle + a, ..old(self)@ }),
            final(self).x == old(self).x,
            final(self).y == old(self).y,
    {
        self.angle = self.angle + a;
    }

    /// Moves the pose by `d` milliunits along its heading.  The move along
    /// each axis is the rounded fixed-point product with the heading's
    /// cosine or sine, so it never exceeds `d` in magnitude.
    fn translate(&mut self, d: i64)
        requires
            abs_i(d as int) <= 2 * MAX_DISTANCE,
            abs_i(old(self).x as int) + abs_i(d as int) <= MAX_COORD,
            abs_i(old(self).y as int) + abs_i(d as int) <= MAX_COORD,
            abs_i(old(self).angle as int) <= MAX_ANGLE,
        ensures
            final(self)@ == forward_step(old(self)@, d as int),
            abs_i(final(self).x as int) <= abs_i(old(self).x as int) + abs_i(d as int),
            abs_i(final(self).y as int) <= abs_i(old(self).y as int) + abs_i(d as int),
            final(self).angle == old(self).angle,
    {
        let c = cos_mdeg(self.angle);
        let s = sin_mdeg(self.angle);
        assert(abs_i((d * c) as int) <= abs_i(d as int) * 1_000_000) by (nonlinear_arith)
            requires
                -1_000_000 <= c <= 1_000_000,
        ;
        assert(abs_i((d * s) as int) <= abs_i(d as int) * 1_000_000) by (nonlinear_arith)
            requires
                -1_000_000 <= s <= 1_000_000,
        ;
        let dx = div_round(d * c, 1_000_000);
        let dy = div_round(d * s, 1_000_000);
        proof {
            lemma_round_div_bound(d as int * c as int, 1_000_000, abs_i(d as int));
            lemma_round_div_bound(d as int * s as int, 1_000_000, abs_i(d as int));
        }
        self.x = self.x + dx;
        self.y = self.y + dy;
    }
}

/// A pose moved `d` milliunits along its heading.
pub open spec fn forward_step(m: TurtleModel, d: int) -> TurtleModel {
    TurtleModel {
        x: m.x + round_div(d * spec_cos(m.angle), 1_000_000),
        y: m.y + round_div(d * spec_sin(m.angle), 1_000_000),
        ..m
    }
}

/// One circle sample of a pose: heading, rounded point, pen state.
pub open spec fn circle_sample(m: TurtleModel) -> (int, int, int, bool) {
    (m.angle, model_point_x(m), model_point_y(m), m.pen_down)
}

/// Whether a stored circle sample equals a model sample.
pub open spec fn sample_matches(c: CirclePos, s: (int, int, int, bool)) -> bool {
    c.angle == s.0 && c.x == s.1 && c.y == s.2 && c.pen_down == s.3
}

/// A pose after a motion command.  An absolute motion rebuilds the pose at
/// the target, keeping the heading; a relative motion moves along the
/// heading.
pub open spec fn motion_step(m: TurtleModel, mc: MotionCmd) -> TurtleModel {
    match mc {
        MotionCmd::Forward(d) => forward_step(m, d as int),
        MotionCmd::Teleport(x, y) => TurtleModel { x: x as int, y: y as int, ..m },
        MotionCmd::GoTo(x, y) => TurtleModel { x: x as int, y: y as int, ..m },
        MotionCmd::SetX(x) => TurtleModel { x: x as int, ..m },
        MotionCmd::SetY(y) => TurtleModel { y: y as int, ..m },
    }
}

/// The pen flag a motion command reports: `Teleport` always reports a jump
/// (`false`), every other motion reports the actual pen state.
pub open spec fn motion_pen_down(m: TurtleModel, mc: MotionCmd) -> bool {
    match mc {
        MotionCmd::Teleport(..) => false,
        _ => m.pen_down,
    }
}

/// The line a motion command emits: begin point, end point, reported pen
/// flag.
pub open spec fn line_model(m: TurtleModel, mc: MotionCmd) -> (int, int, int, int, bool) {
    (
        model_point_x(m),
        model_point_y(m),
        model_point_x(motion_step(m, mc)),
        model_point_y(motion_step(m, mc)),
        motion_pen_down(m, mc),
    )
}

/// Whether an emitted line equals a model line.
pub open spec fn line_matches(li: LineInfo, t: (int, int, int, int, bool)) -> bool {
    li.begin.x == t.0 && li.begin.y == t.1 && li.end.x == t.2 && li.end.y == t.3 && li.pen_down
        == t.4
}

/// A pose after a rotation command.  `SetHeading(h)` places the heading at
/// `(180 - h) + 90` degrees: the runtime's canvas convention maps the
/// requested heading through a half-turn reflection and a quarter-turn
/// offset.
pub open spec fn rotate_step(m: TurtleModel, rc: RotateCmd) -> TurtleModel {
    match rc {
        RotateCmd::Right(a) => TurtleModel { angle: m.angle + a, ..m },
        RotateCmd::Left(a) => TurtleModel { angle: m.angle - a, ..m },
        RotateCmd::SetHeading(h) => TurtleModel { angle: (180_000 - h) + 90_000, ..m },
    }
}

/// The turn direction of a circle: positive radius turns one way, negative
/// the other.
pub open spec fn circle_rsign(radius: int) -> int {
    if radius < 0 {
        1
    } else {
        -1
    }
}

/// The signed per-step rotation of a circle command, in millidegrees.
pub open spec fn circle_theta(radius: int, extent: int, steps: int) -> int {
    circle_rsign(radius) * trunc_div(extent, steps)
}

/// The chord length of one circle step: twice the radius magnitude times
/// the sine of half the per-step arc.
pub open spec fn circle_len(radius: int, extent: int, steps: int) -> int {
    round_div(2 * abs_i(radius) * spec_sin(trunc_div(trunc_div(extent, steps), 2)), 1_000_000)
}

/// One circle step: turn by `rot`, then move one chord.
pub open spec fn chord_step(m: TurtleModel, rot: int, len: int) -> TurtleModel {
    forward_step(TurtleModel { angle: m.angle + rot, ..m }, len)
}

/// The pose after `k` circle steps.  The first step turns by half the
/// per-step rotation only; later steps turn by the full rotation.
pub open spec fn circle_iter(m: TurtleModel, theta: int, len: int, k: nat) -> TurtleModel
    decreases k,
{
    if k == 0 {
        m
    } else {
        chord_step(
            circle_iter(m, theta, len, (k - 1) as nat),
            if k == 1 {
                trunc_div(theta, 2)
            } else {
                theta
            },
            len,
        )
    }
}

/// The pose after a whole circle command: all steps, then the trailing
/// half-rotation that squares the heading with the arc's end.
pub open spec fn circle_end(m: TurtleModel, theta: int, len: int, steps: nat) -> TurtleModel {
    let f = circle_iter(m, theta, len, steps);
    TurtleModel { angle: f.angle + trunc_div(theta, 2), ..f }
}

/// Machine bounds a motion command must meet so that the pose stays within
/// `wf` bounds.
pub open spec fn motion_ok(m: TurtleModel, mc: MotionCmd) -> bool {
    match mc {
        MotionCmd::Forward(d) => abs_i(d as int) <= MAX_DISTANCE && abs_i(m.x) + abs_i(d as int)
            <= MAX_COORD && abs_i(m.y) + abs_i(d as int) <= MAX_COORD,
        MotionCmd::Teleport(x, y) => abs_i(x as int) <= MAX_COORD && abs_i(y as int) <= MAX_COORD,
        MotionCmd::GoTo(x, y) => abs_i(x as int) <= MAX_COORD && abs_i(y as int) <= MAX_COORD,
        MotionCmd::SetX(x) => abs_i(x as int) <= MAX_COORD,
        MotionCmd::SetY(y) => abs_i(y as int) <= MAX_COORD,
    }
}

/// Machine bounds a rotation command must meet.
pub open spec fn rotate_ok(m: TurtleModel, rc: RotateCmd) -> bool {
    match rc {
        RotateCmd::Right(a) => abs_i(a as int) <= MAX_ROTATION && abs_i(m.angle) + abs_i(a as int)
            <= MAX_ANGLE,
        RotateCmd::Left(a) => abs_i(a as int) <= MAX_ROTATION && abs_i(m.angle) + abs_i(a as int)
            <= MAX_ANGLE,
        RotateCmd::SetHeading(h) => abs_i(h as int) <= MAX_HEADING,
    }
}

/// Machine bounds a circle command must meet.  Zero steps is degenerate
/// input and is rejected here, never applied.
pub open spec fn circle_ok(m: TurtleModel, radius: int, extent: int, steps: int) -> bool {
    &&& 1 <= steps <= MAX_STEPS
    &&& abs_i(radius) <= MAX_DISTANCE
    &&& abs_i(extent) <= MAX_ROTATION
    &&& abs_i(m.x) + 2 * steps * abs_i(radius) <= MAX_COORD
    &&& abs_i(m.y) + 2 * steps * abs_i(radius) <= MAX_COORD
    &&& abs_i(m.angle) + (steps + 1) * abs_i(extent) <= MAX_ANGLE
}

/// Whether a drawing request is valid for the given pose: the bounds under
/// which the state machine is defined and free of overflow.
pub open spec fn req_ok(m: TurtleModel, cmd: DrawRequest) -> bool {
    match cmd {
        DrawRequest::TimedDraw(td) => match td {
            TimedDrawCmd::Motion(mc) => motion_ok(m, mc),
            TimedDrawCmd::Rotate(rc) => rotate_ok(m, rc),
            TimedDrawCmd::Circle(r, e, s) => circle_ok(m, r as int, e as int, s as int),
            TimedDrawCmd::Undo => true,
        },
        DrawRequest::InstantaneousDraw(id) => match id {
            InstantaneousDrawCmd::PenWidth(w) => abs_i(w as int) <= MAX_WIDTH,
            _ => true,
        },
    }
}

/// The pose after any drawing request.
pub open spec fn state_after(m: TurtleModel, cmd: DrawRequest) -> TurtleModel {
    match cmd {
        DrawRequest::TimedDraw(td) => match td {
            TimedDrawCmd::Motion(mc) => motion_step(m, mc),
            TimedDrawCmd::Rotate(rc) => rotate_step(m, rc),
            TimedDrawCmd::Circle(r, e, s) => circle_end(
                m,
                circle_theta(r as int, e as int, s as int),
                circle_len(r as int, e as int, s as int),
                s as nat,
            ),
            TimedDrawCmd::Undo => m,
        },
        DrawRequest::InstantaneousDraw(id) => match id {
            InstantaneousDrawCmd::Tracer(_) => m,
            InstantaneousDrawCmd::BackfillPolygon => m,
            InstantaneousDrawCmd::PenDown => TurtleModel { pen_down: true, ..m },
            InstantaneousDrawCmd::PenUp => TurtleModel { pen_down: false, ..m },
            InstantaneousDrawCmd::PenColor(_) => m,
            InstantaneousDrawCmd::FillColor(c) => TurtleModel { fill_color: c, ..m },
            InstantaneousDrawCmd::PenWidth(w) => TurtleModel { pen_width: w as int, ..m },
            InstantaneousDrawCmd::Dot(_, _) => m,
            InstantaneousDrawCmd::Stamp(_) => m,
            InstantaneousDrawCmd::Fill(_) => m,
        },
    }
}

/// The dot diameter a `Dot` command resolves to: the given size, or the pen
/// width when absent.
pub open spec fn dot_size(m: TurtleModel, size: Option<i64>) -> int {
    match size {
        Some(s) => s as int,
        None => m.pen_width,
    }
}

/// The dot colour a `Dot` command resolves to: the given colour, or the
/// fill colour when the sentinel was given.
pub open spec fn dot_color(m: TurtleModel, color: TurtleColor) -> TurtleColor {
    if color == TurtleColor::CurrentColor {
        m.fill_color
    } else {
        color
    }
}

/// What a drawing request emits, related to the pose it was applied to.
pub open spec fn output_matches(m: TurtleModel, cmd: DrawRequest, res: Option<DrawCommand>) -> bool {
    match cmd {
        DrawRequest::TimedDraw(td) => match td {
            TimedDrawCmd::Motion(mc) => res matches Some(c) && c matches DrawCommand::Line(li)
                && line_matches(li, line_model(m, mc)),
            TimedDrawCmd::Rotate(rc) => res matches Some(c) && c matches DrawCommand::SetHeading(
                from,
                to,
            ) && from == m.angle && to == rotate_step(m, rc).angle,
            TimedDrawCmd::Circle(r, e, s) => res matches Some(c) && c matches DrawCommand::Circle(v)
                && v@.len() == s as int + 1 && (forall|i: int|
                0 <= i < v@.len() ==> sample_matches(
                    #[trigger] v@[i],
                    circle_sample(
                        circle_iter(
                            m,
                            circle_theta(r as int, e as int, s as int),
                            circle_len(r as int, e as int, s as int),
                            i as nat,
                        ),
                    ),
                )),
            TimedDrawCmd::Undo => res is None,
        },
        DrawRequest::InstantaneousDraw(id) => match id {
            InstantaneousDrawCmd::Tracer(_) => res is None,
            InstantaneousDrawCmd::BackfillPolygon => res matches Some(c) && c
                matches DrawCommand::Filler,
            InstantaneousDrawCmd::PenDown => res is None,
            InstantaneousDrawCmd::PenUp => res is None,
            InstantaneousDrawCmd::PenColor(pc) => res matches Some(c) && c
                matches DrawCommand::SetPenColor(o) && o == pc,
            InstantaneousDrawCmd::FillColor(fc) => res matches Some(c) && c
                matches DrawCommand::SetFillColor(o) && o == fc,
            InstantaneousDrawCmd::PenWidth(w) => res matches Some(c) && c
                matches DrawCommand::SetPenWidth(h) && h == trunc_div(w as int, 2),
            InstantaneousDrawCmd::Dot(size, color) => res matches Some(c) && c
                matches DrawCommand::DrawDot(p, sz, dc) && p.x == m.x && p.y == m.y && sz
                == dot_size(m, size) && dc == dot_color(m, color),
            InstantaneousDrawCmd::Stamp(_) => res matches Some(c) && c
                matches DrawCommand::StampTurtle,
            InstantaneousDrawCmd::Fill(poly) => res matches Some(c) && c
                matches DrawCommand::DrawPolygon(p) && p.vertices@ == poly.vertices@,
        },
    }
}

impl CurrentTurtleState {
    /// Whether a request is valid for the current pose, decided on machine
    /// integers.  A caller that cannot establish `req_ok` itself calls this
    /// first and treats `false` as rejected degenerate input.
    pub fn check_request(&self, cmd: &DrawRequest) -> (r: bool)
        requires
            self.wf(),
        ensures
            r == req_ok(self@, *cmd),
    {
        match cmd {
            DrawRequest::TimedDraw(td) => match td {
                TimedDrawCmd::Motion(mc) => match mc {
                    MotionCmd::Forward(d) => {
                        if *d < -MAX_DISTANCE || *d > MAX_DISTANCE {
                            false
                        } else {
                            let ad = if *d < 0 {
                                -*d
                            } else {
                                *d
                            };
                            let ax = if self.x < 0 {
                                -self.x
                            } else {
                                self.x
                            };
                            let ay = if self.y < 0 {
                                -self.y
                            } else {
                                self.y
                            };
                            ax + ad <= MAX_COORD && ay + ad <= MAX_COORD
                        }
                    },
                    MotionCmd::Teleport(x, y) => -MAX_COORD <= *x && *x <= MAX_COORD && -MAX_COORD
                        <= *y && *y <= MAX_COORD,
                    MotionCmd::GoTo(x, y) => -MAX_COORD <= *x && *x <= MAX_COORD && -MAX_COORD <= *y
                        && *y <= MAX_COORD,
                    MotionCmd::SetX(x) => -MAX_COORD <= *x && *x <= MAX_COORD,
                    MotionCmd::SetY(y) => -MAX_COORD <= *y && *y <= MAX_COORD,
                },
                TimedDrawCmd::Rotate(rc) => match rc {
                    RotateCmd::Right(a) => self.rotation_in_bounds(*a),
                    RotateCmd::Left(a) => self.rotation_in_bounds(*a),
                    RotateCmd::SetHeading(h) => -MAX_HEADING <= *h && *h <= MAX_HEADING,
                },
                TimedDrawCmd::Circle(radius, extent, steps) => {
                    if *steps < 1 || *steps > MAX_STEPS {
                        false
                    } else if *radius < -MAX_DISTANCE || *radius > MAX_DISTANCE {
                        false
                    } else if *extent < -MAX_ROTATION || *extent > MAX_ROTATION {
                        false
                    } else {
                        let ar = if *radius < 0 {
                            -*radius
                        } else {
                            *radius
                        };
                        let ae = if *extent < 0 {
                            -*extent
                        } else {
                            *extent
                        };
                        let ax = if self.x < 0 {
                            -self.x
                        } else {
                            self.x
                        };
                        let ay = if self.y < 0 {
                            -self.y
                        } else {
                            self.y
                        };
                        let aa = if self.angle < 0 {
                            -self.angle
                        } else {
                            self.angle
                        };
                        let st = *steps as i64;
                        assert(2 * st * ar <= 200_000_000_000_000_000) by (nonlinear_arith)
                            requires
                                1 <= st <= 100_000,
                                0 <= ar <= 1_000_000_000_000,
                        ;
                        assert(2 * st * ar >= 0) by (nonlinear_arith)
                            requires
                                st >= 0,
                                ar >= 0,
                        ;
                        assert((st + 1) * ae <= 36_003_600_000_000) by (nonlinear_arith)
                            requires
                                1 <= st <= 100_000,
                                0 <= ae <= 360_000_000,
                        ;
                        assert((st + 1) * ae >= 0) by (nonlinear_arith)
                            requires
                                st >= 0,
                                ae >= 0,
                        ;
                        let disp = 2 * st * ar;
                        let rot = (st + 1) * ae;
                        ax + disp <= MAX_COORD && ay + disp <= MAX_COORD && aa + rot <= MAX_ANGLE
                    }
                },
                TimedDrawCmd::Undo => true,
            },
            DrawRequest::InstantaneousDraw(id) => match id {
                InstantaneousDrawCmd::PenWidth(w) => -MAX_WIDTH <= *w && *w <= MAX_WIDTH,
                _ => true,
            },
        }
    }

    /// Applies one drawing request to the pose, in place, and returns the
    /// draw command it emits, if any.  The new pose is exactly
    /// `state_after` of the old pose, and the emitted command is pinned by
    /// `output_matches`.
    pub fn apply(&mut self, cmd: &DrawRequest) -> (res: Option<DrawCommand>)
        requires
            old(self).wf(),
            req_ok(old(self)@, *cmd),
        ensures
            final(self).wf(),
            final(self)@ == state_after(old(self)@, *cmd),
            output_matches(old(self)@, *cmd, res),
    {
        match cmd {
            DrawRequest::TimedDraw(td) => match td {
                TimedDrawCmd::Circle(radius, extent, steps) => {
                    let radius = *radius;
                    let extent = *extent;
                    let steps = *steps;
                    let ghost m0 = self@;
                    let ghost theta = circle_theta(radius as int, extent as int, steps as int);
                    let ghost slen = circle_len(radius as int, extent as int, steps as int);
                    let q = div_trunc(extent, steps as i64);
                    let theta_d = if radius < 0 {
                        q
                    } else {
                        -q
                    };
                    let half = div_trunc(q, 2);
                    let sv = sin_mdeg(half);
                    let rad_abs = if radius < 0 {
                        -radius
                    } else {
                        radius
                    };
                    assert(-2_000_000_000_000_000_000 <= 2 * (rad_abs as int) * (sv as int) <= 2_000_000_000_000_000_000
                        && abs_i(2 * (rad_abs as int) * (sv as int)) <= (2 * rad_abs as int) * 1_000_000) by (nonlinear_arith)
                        requires
                            0 <= rad_abs <= 1_000_000_000_000,
                            -1_000_000 <= sv <= 1_000_000,
                    ;
                    let len = div_round(2 * rad_abs * sv, 1_000_000);
                    proof {
                        lemma_round_div_bound(
                            2 * (rad_abs as int) * (sv as int),
                            1_000_000,
                            2 * (rad_abs as int),
                        );
                        assert(theta_d == theta);
                        assert(len == slen);
                        assert(abs_i(len as int) <= 2 * (rad_abs as int));
                        assert(abs_i(theta as int) <= abs_i(extent as int));
                    }
                    let mut pointlist: Vec<CirclePos> = Vec::new();
                    pointlist.push(self.get_circlepos());
                    let mut s: u32 = 0;
                    while s < steps
                        invariant
                            s <= steps,
                            1 <= steps <= MAX_STEPS,
                            circle_ok(m0, radius as int, extent as int, steps as int),
                            theta == theta_d as int,
                            slen == len as int,
                            abs_i(theta) <= abs_i(extent as int),
                            abs_i(extent as int) <= MAX_ROTATION,
                            rad_abs == abs_i(radius as int),
                            0 <= rad_abs <= MAX_DISTANCE,
                            abs_i(len as int) <= 2 * (rad_abs as int),
                            self@ == circle_iter(m0, theta, slen, s as nat),
                            self@.pen_width == m0.pen_width,
                            abs_i(self.x as int) <= abs_i(m0.x) + 2 * (s as int) * (rad_abs as int),
                            abs_i(self.y as int) <= abs_i(m0.y) + 2 * (s as int) * (rad_abs as int),
                            abs_i(self.angle as int) <= abs_i(m0.angle) + (s as int) * abs_i(theta),
                            abs_i(self.pen_width as int) <= MAX_WIDTH,
                            pointlist@.len() == s as int + 1,
                            forall|i: int|
                                0 <= i <= s as int ==> sample_matches(
                                    #[trigger] pointlist@[i],
                                    circle_sample(circle_iter(m0, theta, slen, i as nat)),
                                ),
                        decreases steps - s,
                    {
                        let rot = if s == 0 {
                            div_trunc(theta_d, 2)
                        } else {
                            theta_d
                        };
                        proof {
                            assert((s as int + 1) * abs_i(theta) <= (steps as int + 1) * abs_i(
                                extent as int,
                            )) by (nonlinear_arith)
                                requires
                                    0 <= abs_i(theta) <= abs_i(extent as int),
                                    (s as int) < (steps as int),
                            ;
                            assert((s as int) * abs_i(theta) >= 0) by (nonlinear_arith)
                                requires
                                    (s as int) >= 0,
                                    abs_i(theta) >= 0,
                            ;
                            assert(2 * (s as int + 1) * (rad_abs as int) <= 2 * (steps as int) * (
                            rad_abs as int)) by (nonlinear_arith)
                                requires
                                    (s as int) < (steps as int),
                                    rad_abs >= 0,
                            ;
                            assert(2 * (s as int) * (rad_abs as int) >= 0) by (nonlinear_arith)
                                requires
                                    (s as int) >= 0,
                                    rad_abs >= 0,
                            ;
                            assert((s as int) * abs_i(theta) + abs_i(theta) == (s as int + 1)
                                * abs_i(theta)) by (nonlinear_arith);
                            assert(2 * (s as int + 1) * (rad_abs as int) == 2 * (s as int) * (
                            rad_abs as int) + 2 * (rad_abs as int)) by (nonlinear_arith);
                        }
                        self.rot_deg(rot);
                        self.translate(len);
                        pointlist.push(self.get_circlepos());
                        proof {
                            assert(circle_iter(m0, theta, slen, (s + 1) as nat) == chord_step(
                                circle_iter(m0, theta, slen, s as nat),
                                if s == 0 {
                                    trunc_div(theta, 2)
                                } else {
                                    theta
                                },
                                slen,
                            ));
                            assert(2 * (s as int + 1) * (rad_abs as int) == 2 * (s as int) * (
                            rad_abs as int) + 2 * (rad_abs as int)) by (nonlinear_arith);
                            assert((s as int + 1) * abs_i(theta) == (s as int) * abs_i(theta)
                                + abs_i(theta)) by (nonlinear_arith);
                        }
                        s = s + 1;
                    }
                    proof {
                        assert((steps as int + 1) * abs_i(theta) <= (steps as int + 1) * abs_i(
                            extent as int,
                        )) by (nonlinear_arith)
                            requires
                                0 <= abs_i(theta) <= abs_i(extent as int),
                                (steps as int) >= 0,
                        ;
                        assert((steps as int) * abs_i(theta) + abs_i(theta) == (steps as int + 1)
                            * abs_i(theta)) by (nonlinear_arith);
                    }
                    self.rot_deg(div_trunc(theta_d, 2));
                    Some(DrawCommand::Circle(pointlist))
                },
                TimedDrawCmd::Motion(motion) => {
                    let begin = self.get_point();
                    let mut pen_down = self.pen_down;
                    match motion {
                        MotionCmd::Forward(dist) => {
                            self.translate(*dist);
                        },
                        MotionCmd::Teleport(x, y) => {
                            self.x = *x;
                            self.y = *y;
                            pen_down = false;
                        },
                        MotionCmd::GoTo(x, y) => {
                            self.x = *x;
                            self.y = *y;
                        },
                        MotionCmd::SetX(x) => {
                            self.x = *x;
                        },
                        MotionCmd::SetY(y) => {
                            self.y = *y;
                        },
                    }
                    let end = self.get_point();
                    Some(DrawCommand::Line(LineInfo { begin, end, pen_down }))
                },
                TimedDrawCmd::Rotate(rotation) => {
                    let start = self.angle;
                    match rotation {
                        RotateCmd::Right(angle) => {
                            self.rot_deg(*angle);
                        },
                        RotateCmd::Left(angle) => {
                            self.rot_deg(-*angle);
                        },
                        RotateCmd::SetHeading(h) => {
                            let hp = 180_000 - *h;
                            self.angle = hp + 90_000;
                        },
                    }
                    Some(DrawCommand::SetHeading(start, self.angle))
                },
                TimedDrawCmd::Undo => None,
            },
            DrawRequest::InstantaneousDraw(id) => match id {
                InstantaneousDrawCmd::Tracer(_) => None,
                InstantaneousDrawCmd::BackfillPolygon => Some(DrawCommand::Filler),
                InstantaneousDrawCmd::PenDown => {
                    self.pen_down = true;
                    None
                },
                InstantaneousDrawCmd::PenUp => {
                    self.pen_down = false;
                    None
                },
                InstantaneousDrawCmd::PenColor(pc) => Some(DrawCommand::SetPenColor(*pc)),
                InstantaneousDrawCmd::FillColor(fc) => {
                    self.fill_color = *fc;
                    Some(DrawCommand::SetFillColor(*fc))
                },
                InstantaneousDrawCmd::PenWidth(pw) => {
                    self.pen_width = *pw;
                    Some(DrawCommand::SetPenWidth(div_trunc(*pw, 2)))
                },
                InstantaneousDrawCmd::Dot(size, color) => {
                    let sz = if let Some(size) = size {
                        *size
                    } else {
                        self.pen_width
                    };
                    let point = self.pos();
                    let dc = if matches!(color, TurtleColor::CurrentColor) {
                        self.fill_color
                    } else {
                        *color
                    };
                    Some(DrawCommand::DrawDot(point, sz, dc))
                },
                InstantaneousDrawCmd::Stamp(_) => Some(DrawCommand::StampTurtle),
                InstantaneousDrawCmd::Fill(polygon) => Some(
                    DrawCommand::DrawPolygon(polygon.duplicate()),
                ),
            },
        }
    }

    /// Whether a relative rotation keeps the heading within machine bounds.
    fn rotation_in_bounds(&self, a: i64) -> (r: bool)
        requires
            self.wf(),
        ensures
            r == (abs_i(a as int) <= MAX_ROTATION && abs_i(self@.angle) + abs_i(a as int)
                <= MAX_ANGLE),
    {
        if a < -MAX_ROTATION || a > MAX_ROTATION {
            false
        } else {
            let aa = if a < 0 {
                -a
            } else {
                a
            };
            let ang = if self.angle < 0 {
                -self.angle
            } else {
                self.angle
            };
            ang + aa <= MAX_ANGLE
        }
    }
}

} // verus!
