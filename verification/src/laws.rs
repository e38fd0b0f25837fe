//! Cross-command laws of the state machine, stated and proved over the pose
//! model that `apply`'s contract is written against.
use vstd::prelude::*;

use crate::command::{MotionCmd, RotateCmd};
use crate::fixed::trunc_div;
use crate::generate::{
    chord_step, circle_end, circle_iter, line_model, motion_step, rotate_step, TurtleModel,
};

verus! {

/// The pose after a whole run of motion commands, applied front to back.
pub open spec fn run_motions(m: TurtleModel, cmds: Seq<MotionCmd>) -> TurtleModel
    decreases cmds.len(),
{
    if cmds.len() == 0 {
        m
    } else {
        run_motions(motion_step(m, cmds[0]), cmds.drop_first())
    }
}

/// The line emitted by the `k`-th motion of a run.
pub open spec fn line_at(m: TurtleModel, cmds: Seq<MotionCmd>, k: int) -> (int, int, int, int, bool)
    recommends
        0 <= k < cmds.len(),
{
    line_model(run_motions(m, cmds.take(k)), cmds[k])
}

/// Running one more motion steps the pose once more.
pub proof fn lemma_run_motions_push(m: TurtleModel, cmds: Seq<MotionCmd>, c: MotionCmd)
    ensures
        run_motions(m, cmds.push(c)) == motion_step(run_motions(m, cmds), c),
    decreases cmds.len(),
{
    if cmds.len() == 0 {
        assert(cmds.push(c)[0] == c);
        assert(cmds.push(c).drop_first() =~= Seq::<MotionCmd>::empty());
        assert(run_motions(motion_step(m, c), Seq::<MotionCmd>::empty()) == motion_step(m, c));
    } else {
        assert(cmds.push(c)[0] == cmds[0]);
        assert(cmds.push(c).drop_first() =~= cmds.drop_first().push(c));
        lemma_run_motions_push(motion_step(m, cmds[0]), cmds.drop_first(), c);
    }
}

/// Continuity: in any run of motion commands, the line emitted by command
/// `k` ends exactly at the point where the line of command `k + 1` begins,
/// whatever the pen state.
pub proof fn lemma_motion_continuity(m: TurtleModel, cmds: Seq<MotionCmd>, k: int)
    requires
        0 <= k,
        k + 1 < cmds.len(),
    ensures
        line_at(m, cmds, k).2 == line_at(m, cmds, k + 1).0,
        line_at(m, cmds, k).3 == line_at(m, cmds, k + 1).1,
{
    assert(cmds.take(k + 1) =~= cmds.take(k).push(cmds[k]));
    lemma_run_motions_push(m, cmds.take(k), cmds[k]);
}

/// A teleport always reports a jump: the emitted line carries
/// `pen_down == false` whatever the turtle's actual pen state.
pub proof fn lemma_teleport_reports_jump(m: TurtleModel, x: i64, y: i64)
    ensures
        line_model(m, MotionCmd::Teleport(x, y)).4 == false,
{
}

/// A go-to reports the actual pen state in the emitted line.
pub proof fn lemma_goto_reports_pen(m: TurtleModel, x: i64, y: i64)
    ensures
        line_model(m, MotionCmd::GoTo(x, y)).4 == m.pen_down,
{
}

/// Turning right and then left by the same amount restores the whole pose:
/// the heading — which carries the pose's entire rotational component — and
/// the position come back exactly.
pub proof fn lemma_right_left_round_trip(m: TurtleModel, a: i64)
    ensures
        rotate_step(rotate_step(m, RotateCmd::Right(a)), RotateCmd::Left(a)) == m,
{
}

/// Setting the same heading twice is idempotent: the second command leaves
/// the pose unchanged, so it performs no further rotation and its emitted
/// heading change goes from the target to the target.
pub proof fn lemma_set_heading_idempotent(m: TurtleModel, h: i64)
    ensures
        rotate_step(rotate_step(m, RotateCmd::SetHeading(h)), RotateCmd::SetHeading(h))
            == rotate_step(m, RotateCmd::SetHeading(h)),
        rotate_step(rotate_step(m, RotateCmd::SetHeading(h)), RotateCmd::SetHeading(h)).angle
            == rotate_step(m, RotateCmd::SetHeading(h)).angle,
{
}

/// The heading after `k >= 1` circle steps: the opening half-rotation plus
/// `k - 1` full per-step rotations.
pub proof fn lemma_circle_iter_angle(m: TurtleModel, theta: int, len: int, k: nat)
    requires
        k >= 1,
    ensures
        circle_iter(m, theta, len, k).angle == m.angle + trunc_div(theta, 2) + (k - 1) * theta,
    decreases k,
{
    if k == 1 {
        assert(circle_iter(m, theta, len, 0) == m);
    } else {
        lemma_circle_iter_angle(m, theta, len, (k - 1) as nat);
        assert((k - 2) * theta + theta == (k - 1) * theta) by (nonlinear_arith);
    }
}

/// The net rotation of a whole circle command: the two half-rotations at
/// the ends plus `steps - 1` full per-step rotations.
pub proof fn lemma_circle_net_rotation(m: TurtleModel, theta: int, len: int, steps: nat)
    requires
        steps >= 1,
    ensures
        circle_end(m, theta, len, steps).angle == m.angle + 2 * trunc_div(theta, 2) + (steps - 1)
            * theta,
{
    lemma_circle_iter_angle(m, theta, len, steps);
}

/// When the per-step rotation is an even number of millidegrees, the
/// halving at the ends is exact and the net rotation of a circle command is
/// exactly `steps` times the per-step rotation — for a full circle, the
/// whole extent.
pub proof fn lemma_circle_exact_rotation(m: TurtleModel, theta: int, len: int, steps: nat)
    requires
        steps >= 1,
        theta % 2 == 0,
    ensures
        circle_end(m, theta, len, steps).angle == m.angle + steps * theta,
{
    lemma_circle_net_rotation(m, theta, len, steps);
    assert(2 * trunc_div(theta, 2) == theta) by {
        if theta >= 0 {
            vstd::arithmetic::div_mod::lemma_fundamental_div_mod(theta, 2);
        } else {
            vstd::arithmetic::div_mod::lemma_fundamental_div_mod(-theta, 2);
            assert((-theta) % 2 == 0) by {
                vstd::arithmetic::div_mod::lemma_mod_neg_neg(theta, 2);
            }
        }
    }
    assert(2 * trunc_div(theta, 2) + (steps - 1) * theta == steps * theta) by (nonlinear_arith)
        requires
            2 * trunc_div(theta, 2) == theta,
            steps >= 1,
    ;
}

/// Every step of one circle command moves the pose by the same chord
/// parameter: uniform chord lengths are built into the step itself.
pub proof fn lemma_circle_uniform_chords(m: TurtleModel, theta: int, len: int, k: nat)
    requires
        k >= 1,
    ensures
        circle_iter(m, theta, len, k) == chord_step(
            circle_iter(m, theta, len, (k - 1) as nat),
            if k == 1 {
                trunc_div(theta, 2)
            } else {
                theta
            },
            len,
        ),
{
}

} // verus!
