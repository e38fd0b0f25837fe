//! The pose walk of the minimal renderer: replaying a stroke-command list
//! into line segments and a final pose.
//!
//! A renderer animates the newest command by a completion fraction and
//! replays all finished commands in full on every frame.  The walk here is
//! that replay, minus the painting: finished commands run at full
//! fraction, the in-flight command at the given fraction, and every
//! pen-down forward motion yields one segment.  The walk keeps two
//! headings, as the renderer does: the fraction-scaled heading the pose
//! turns by, and the unscaled accumulated heading that an absolute move
//! re-aligns to.
use vstd::prelude::*;

use crate::fixed::{
    abs_i, cos_mdeg, div_round, round_div, sin_mdeg, spec_cos, spec_sin, lemma_round_div_bound,
    MAX_COORD, MAX_DISTANCE, MAX_ROTATION,
};
use crate::polygon::ExactPoint;
use crate::{rotation_of, Command};

verus! {

/// Largest number of stroke commands one walk replays: as many as the
/// machine's coordinate arithmetic allows, since each command moves the
/// pose by at most `MAX_DISTANCE` milliunits and nine million such moves
/// still keep every intermediate coordinate within `i64`.
pub const MAX_WALK_COMMANDS: usize = 9_000_000;

/// One stroke to paint: a segment between two exact milliunit points.
#[derive(Clone, Copy, Debug, PartialEq, Eq, Structural)]
pub struct StrokeSegment {
    pub begin: ExactPoint,
    pub end: ExactPoint,
}

/// The walking pose of the minimal renderer: position in milliunits, the
/// fraction-scaled heading, the pen state, and the unscaled accumulated
/// heading (`deg`) that an absolute move re-aligns to.
#[derive(Clone, Copy, Debug, PartialEq, Eq, Structural)]
pub struct StrokePose {
    pub x: i64,
    pub y: i64,
    pub angle: i64,
    pub pen_down: bool,
    pub deg: i64,
}

/// The walking pose over unbounded integers.
pub ghost struct StrokeModel {
    pub x: int,
    pub y: int,
    pub angle: int,
    pub pen_down: bool,
    pub deg: int,
}

impl View for StrokePose {
    type V = StrokeModel;

    open spec fn view(&self) -> StrokeModel {
        StrokeModel {
            x: self.x as int,
            y: self.y as int,
            angle: self.angle as int,
            pen_down: self.pen_down,
            deg: self.deg as int,
        }
    }
}

/// The renderer's starting pose: the canvas centre, turned a quarter turn
/// anticlockwise, with the given pen state.
pub open spec fn start_model(pen_down: bool) -> StrokeModel {
    StrokeModel { x: 0, y: 0, angle: -90_000, pen_down, deg: -90_000 }
}

/// A value scaled by a completion fraction in milli, rounded to nearest.
pub open spec fn scaled(v: int, pct: int) -> int {
    round_div(v * pct, 1000)
}

/// One walk step: the pose after replaying one stroke command at the
/// given completion fraction.
pub open spec fn stroke_step(m: StrokeModel, c: Command, pct: int) -> StrokeModel {
    let d = m.deg + rotation_of(c);
    match c {
        Command::Forward(dist) => {
            let len = scaled(dist as int, pct);
            StrokeModel {
                x: m.x + round_div(len * spec_cos(m.angle), 1_000_000),
                y: m.y + round_div(len * spec_sin(m.angle), 1_000_000),
                deg: d,
                ..m
            }
        },
        Command::Right(a) => StrokeModel { angle: m.angle + scaled(a as int, pct), deg: d, ..m },
        Command::Left(a) => StrokeModel { angle: m.angle - scaled(a as int, pct), deg: d, ..m },
        Command::PenDown => StrokeModel { pen_down: true, deg: d, ..m },
        Command::PenUp => StrokeModel { pen_down: false, deg: d, ..m },
        Command::GoTo(x, y) => StrokeModel { x: x as int, y: y as int, angle: d, deg: d, ..m },
        Command::ClearScreen => m,
    }
}

/// The segments one walk step paints: a pen-down forward motion paints the
/// segment it moves over, everything else paints nothing.
pub open spec fn step_segs(m: StrokeModel, c: Command, pct: int) -> Seq<(int, int, int, int)> {
    if c matches Command::Forward(_) && m.pen_down {
        seq![(m.x, m.y, stroke_step(m, c, pct).x, stroke_step(m, c, pct).y)]
    } else {
        Seq::empty()
    }
}

/// The pose after replaying a whole list of finished commands.
pub open spec fn walk_all(m: StrokeModel, cmds: Seq<Command>) -> StrokeModel
    decreases cmds.len(),
{
    if cmds.len() == 0 {
        m
    } else {
        walk_all(stroke_step(m, cmds[0], 1000), cmds.drop_first())
    }
}

/// The segments a whole list of finished commands paints, in order.
pub open spec fn segs_all(m: StrokeModel, cmds: Seq<Command>) -> Seq<(int, int, int, int)>
    decreases cmds.len(),
{
    if cmds.len() == 0 {
        Seq::empty()
    } else {
        step_segs(m, cmds[0], 1000) + segs_all(stroke_step(m, cmds[0], 1000), cmds.drop_first())
    }
}

/// Replaying one more finished command steps the walk once more.
pub proof fn lemma_walk_push(m: StrokeModel, cmds: Seq<Command>, c: Command)
    ensures
        walk_all(m, cmds.push(c)) == stroke_step(walk_all(m, cmds), c, 1000),
        segs_all(m, cmds.push(c)) =~= segs_all(m, cmds) + step_segs(walk_all(m, cmds), c, 1000),
    decreases cmds.len(),
{
    if cmds.len() == 0 {
        assert(cmds.push(c)[0] == c);
        assert(cmds.push(c).drop_first() =~= Seq::<Command>::empty());
        assert(walk_all(stroke_step(m, c, 1000), Seq::<Command>::empty()) == stroke_step(
            m,
            c,
            1000,
        ));
        assert(segs_all(stroke_step(m, c, 1000), Seq::<Command>::empty()) =~= Seq::<(
            int,
            int,
            int,
            int,
        )>::empty());
    } else {
        assert(cmds.push(c)[0] == cmds[0]);
        assert(cmds.push(c).drop_first() =~= cmds.drop_first().push(c));
        lemma_walk_push(stroke_step(m, cmds[0], 1000), cmds.drop_first(), c);
    }
}

/// Whether one stroke command is within the walk's machine bounds; a
/// clear-screen marker is not a drawing command and never stands in a
/// replay list.
pub open spec fn walk_cmd_ok(c: Command) -> bool {
    match c {
        Command::Forward(d) => abs_i(d as int) <= MAX_DISTANCE,
        Command::Right(a) => abs_i(a as int) <= MAX_ROTATION,
        Command::Left(a) => abs_i(a as int) <= MAX_ROTATION,
        Command::PenDown => true,
        Command::PenUp => true,
        Command::GoTo(x, y) => abs_i(x as int) <= MAX_COORD && abs_i(y as int) <= MAX_COORD,
        Command::ClearScreen => false,
    }
}

/// Whether an emitted segment equals a model segment.
pub open spec fn seg_matches(s: StrokeSegment, t: (int, int, int, int)) -> bool {
    s.begin.x == t.0 && s.begin.y == t.1 && s.end.x == t.2 && s.end.y == t.3
}

/// Whether every command of a replay list is within the walk's bounds.
pub fn check_walk(cmds: &Vec<Command>, current: Option<&Command>) -> (r: bool)
    ensures
        r == ((forall|i: int| 0 <= i < cmds@.len() ==> walk_cmd_ok(#[trigger] cmds@[i])) && (
        current matches Some(c) ==> walk_cmd_ok(*c))),
{
    let n = cmds.len();
    let mut i: usize = 0;
    while i < n
        invariant
            i <= n,
            n == cmds@.len(),
            forall|j: int| 0 <= j < i ==> walk_cmd_ok(#[trigger] cmds@[j]),
        decreases n - i,
    {
        if !check_walk_cmd(&cmds[i]) {
            return false;
        }
        i += 1;
    }
    match current {
        Some(c) => check_walk_cmd(c),
        None => true,
    }
}

/// Whether one stroke command is within the walk's bounds.
fn check_walk_cmd(c: &Command) -> (r: bool)
    ensures
        r == walk_cmd_ok(*c),
{
    match c {
        Command::Forward(d) => -MAX_DISTANCE <= *d && *d <= MAX_DISTANCE,
        Command::Right(a) => -MAX_ROTATION <= *a && *a <= MAX_ROTATION,
        Command::Left(a) => -MAX_ROTATION <= *a && *a <= MAX_ROTATION,
        Command::PenDown => true,
        Command::PenUp => true,
        Command::GoTo(x, y) => -MAX_COORD <= *x && *x <= MAX_COORD && -MAX_COORD <= *y && *y
            <= MAX_COORD,
        Command::ClearScreen => false,
    }
}

/// One walk step on machine integers.
fn stroke_step_exec(pose: &mut StrokePose, c: &Command, pct: i64, bound: i64) -> (seg: Option<
    StrokeSegment,
>)
    requires
        walk_cmd_ok(*c),
        0 <= pct <= 1000,
        0 <= bound <= 9_000_000,
        abs_i(old(pose).x as int) <= MAX_COORD + bound * MAX_DISTANCE,
        abs_i(old(pose).y as int) <= MAX_COORD + bound * MAX_DISTANCE,
        abs_i(old(pose).angle as int) <= 90_000 + bound * MAX_ROTATION,
        abs_i(old(pose).deg as int) <= 90_000 + bound * MAX_ROTATION,
    ensures
        final(pose)@ == stroke_step(old(pose)@, *c, pct as int),
        abs_i(final(pose).x as int) <= MAX_COORD + (bound + 1) * MAX_DISTANCE,
        abs_i(final(pose).y as int) <= MAX_COORD + (bound + 1) * MAX_DISTANCE,
        abs_i(final(pose).angle as int) <= 90_000 + (bound + 1) * MAX_ROTATION,
        abs_i(final(pose).deg as int) <= 90_000 + (bound + 1) * MAX_ROTATION,
        step_segs(old(pose)@, *c, pct as int).len() == 1 ==> (seg matches Some(s) && seg_matches(
            s,
            step_segs(old(pose)@, *c, pct as int)[0],
        )),
        step_segs(old(pose)@, *c, pct as int).len() == 0 ==> seg is None,
{
    proof {
        assert((bound + 1) * MAX_ROTATION == bound * MAX_ROTATION + MAX_ROTATION)
            by (nonlinear_arith);
        assert((bound + 1) * MAX_DISTANCE == bound * MAX_DISTANCE + MAX_DISTANCE)
            by (nonlinear_arith);
        assert(bound * MAX_ROTATION >= 0) by (nonlinear_arith)
            requires
                bound >= 0,
        ;
        assert(bound * MAX_DISTANCE >= 0) by (nonlinear_arith)
            requires
                bound >= 0,
        ;
        assert(bound * MAX_DISTANCE <= 9_000_000 * MAX_DISTANCE) by (nonlinear_arith)
            requires
                0 <= bound <= 9_000_000,
        ;
        assert(bound * MAX_ROTATION <= 9_000_000 * MAX_ROTATION) by (nonlinear_arith)
            requires
                0 <= bound <= 9_000_000,
        ;
    }
    match c {
        Command::Forward(dist) => {
            assert(abs_i(dist as int * pct as int) <= abs_i(dist as int) * 1000)
                by (nonlinear_arith)
                requires
                    0 <= pct <= 1000,
            ;
            let len = div_round(dist * pct, 1000);
            proof {
                lemma_round_div_bound(dist as int * pct as int, 1000, abs_i(dist as int));
            }
            let cv = cos_mdeg(pose.angle);
            let sv = sin_mdeg(pose.angle);
            assert(abs_i((len * cv) as int) <= abs_i(len as int) * 1_000_000) by (nonlinear_arith)
                requires
                    -1_000_000 <= cv <= 1_000_000,
            ;
            assert(abs_i((len * sv) as int) <= abs_i(len as int) * 1_000_000) by (nonlinear_arith)
                requires
                    -1_000_000 <= sv <= 1_000_000,
            ;
            let dx = div_round(len * cv, 1_000_000);
            let dy = div_round(len * sv, 1_000_000);
            proof {
                lemma_round_div_bound(len as int * cv as int, 1_000_000, abs_i(len as int));
                lemma_round_div_bound(len as int * sv as int, 1_000_000, abs_i(len as int));
            }
            let begin = ExactPoint { x: pose.x, y: pose.y };
            pose.x = pose.x + dx;
            pose.y = pose.y + dy;
            pose.deg = pose.deg + 0;
            if pose.pen_down {
                Some(StrokeSegment { begin, end: ExactPoint { x: pose.x, y: pose.y } })
            } else {
                None
            }
        },
        Command::Right(a) => {
            assert(abs_i(a as int * pct as int) <= abs_i(a as int) * 1000) by (nonlinear_arith)
                requires
                    0 <= pct <= 1000,
            ;
            let delta = div_round(a * pct, 1000);
            proof {
                lemma_round_div_bound(a as int * pct as int, 1000, abs_i(a as int));
            }
            pose.angle = pose.angle + delta;
            pose.deg = pose.deg + *a;
            None
        },
        Command::Left(a) => {
            assert(abs_i(a as int * pct as int) <= abs_i(a as int) * 1000) by (nonlinear_arith)
                requires
                    0 <= pct <= 1000,
            ;
            let delta = div_round(a * pct, 1000);
            proof {
                lemma_round_div_bound(a as int * pct as int, 1000, abs_i(a as int));
            }
            pose.angle = pose.angle - delta;
            pose.deg = pose.deg - *a;
            None
        },
        Command::PenDown => {
            pose.pen_down = true;
            None
        },
        Command::PenUp => {
            pose.pen_down = false;
            None
        },
        Command::GoTo(x, y) => {
            pose.x = *x;
            pose.y = *y;
            pose.angle = pose.deg;
            None
        },
        Command::ClearScreen => None,
    }
}

/// Replays a frame of the minimal renderer: every finished command in
/// full, then the in-flight command at the given completion fraction.
/// Returns the pen-down segments to paint, in order, and the final pose,
/// where the renderer places the turtle's marker.
pub fn render_walk(
    cmds: &Vec<Command>,
    current: Option<&Command>,
    progress_milli: i64,
    pen_down: bool,
) -> (r: (Vec<StrokeSegment>, StrokePose))
    requires
        cmds@.len() <= MAX_WALK_COMMANDS,
        forall|i: int| 0 <= i < cmds@.len() ==> walk_cmd_ok(#[trigger] cmds@[i]),
        current matches Some(c) ==> walk_cmd_ok(*c),
        0 <= progress_milli <= 1000,
    ensures
        ({
            let m0 = start_model(pen_down);
            let done = walk_all(m0, cmds@);
            let segs = segs_all(m0, cmds@) + (match current {
                Some(c) => step_segs(done, *c, progress_milli as int),
                None => Seq::empty(),
            });
            &&& r.1@ == (match current {
                Some(c) => stroke_step(done, *c, progress_milli as int),
                None => done,
            })
            &&& r.0@.len() == segs.len()
            &&& forall|i: int| 0 <= i < segs.len() ==> seg_matches(#[trigger] r.0@[i], segs[i])
        }),
{
    let ghost m0 = start_model(pen_down);
    let mut pose = StrokePose { x: 0, y: 0, angle: -90_000, pen_down, deg: -90_000 };
    let mut segs: Vec<StrokeSegment> = Vec::new();
    let n = cmds.len();
    let mut i: usize = 0;
    while i < n
        invariant
            i <= n,
            n == cmds@.len(),
            n <= MAX_WALK_COMMANDS,
            forall|j: int| 0 <= j < n ==> walk_cmd_ok(#[trigger] cmds@[j]),
            pose@ == walk_all(m0, cmds@.take(i as int)),
            abs_i(pose.x as int) <= MAX_COORD + (i as int) * MAX_DISTANCE,
            abs_i(pose.y as int) <= MAX_COORD + (i as int) * MAX_DISTANCE,
            abs_i(pose.angle as int) <= 90_000 + (i as int) * MAX_ROTATION,
            abs_i(pose.deg as int) <= 90_000 + (i as int) * MAX_ROTATION,
            segs@.len() == segs_all(m0, cmds@.take(i as int)).len(),
            forall|k: int|
                0 <= k < segs@.len() ==> seg_matches(
                    #[trigger] segs@[k],
                    segs_all(m0, cmds@.take(i as int))[k],
                ),
        decreases n - i,
    {
        let ghost prefix = cmds@.take(i as int);
        let seg = stroke_step_exec(&mut pose, &cmds[i], 1000, i as i64);
        proof {
            assert(cmds@.take(i as int + 1) =~= prefix.push(cmds@[i as int]));
            lemma_walk_push(m0, prefix, cmds@[i as int]);
        }
        if let Some(s) = seg {
            segs.push(s);
        }
        i += 1;
    }
    proof {
        assert(cmds@.take(n as int) =~= cmds@);
    }
    match current {
        Some(c) => {
            let seg = stroke_step_exec(&mut pose, c, progress_milli, n as i64);
            if let Some(s) = seg {
                segs.push(s);
            }
            (segs, pose)
        },
        None => (segs, pose),
    }
}

} // verus!
