//! What holds of the classifier and of the controller over all inputs and
//! over whole runs of ticks.

use crate::classifier::{cocked, faces_up, in_band, off_axis, Face};
use crate::die::{BodyKinematics, DieState, DieView, COCKED_TOLERANCE};
use crate::fixed::{Quat, SpecVec3, SCALE};
use crate::forces::{
    corrective_angular_impulse, corrective_cock, initial_angular_impulse, initial_force,
    initial_impulse, initial_roll, initial_torque, zero, BodyForces, ForceCommand, Perturbation,
    RollConfig,
};
use vstd::prelude::*;

verus! {

/// A die none of whose face normals has a component inside the tolerance
/// band is settled, never cocked.
pub proof fn lemma_outside_band_is_settled(rotation: Quat, tolerance: int)
    requires
        forall|face: Face|
            {
                let n = #[trigger] face.world_normal(rotation);
                !in_band(n.x, tolerance) && !in_band(n.y, tolerance) && !in_band(n.z, tolerance)
            },
    ensures
        !cocked(rotation, tolerance),
{
}

/// A die one of whose face normals has a component inside the tolerance
/// band is cocked.
pub proof fn lemma_inside_band_is_cocked(rotation: Quat, tolerance: int, face: Face)
    requires
        ({
            let n = face.world_normal(rotation);
            in_band(n.x, tolerance) || in_band(n.y, tolerance) || in_band(n.z, tolerance)
        }),
    ensures
        cocked(rotation, tolerance),
{
    assert(off_axis(face.world_normal(rotation), tolerance));
}

/// Under no rotation every face normal keeps its own direction, at full
/// length: the top face points straight up. With a tolerance that is not
/// negative such a die is settled.
pub proof fn lemma_unturned_die_is_settled(tolerance: int)
    requires
        0 <= tolerance,
    ensures
        forall|face: Face|
            {
                let n = #[trigger] face.world_normal(Quat::no_turn());
                let local = face.normal();
                n.x == local.x * (SCALE * SCALE) && n.y == local.y * (SCALE * SCALE) && n.z
                    == local.z * (SCALE * SCALE)
            },
        Face::Top.world_normal(Quat::no_turn()) == (SpecVec3 { x: 0, y: SCALE * SCALE, z: 0 }),
        !cocked(Quat::no_turn(), tolerance),
        faces_up(Quat::no_turn(), Face::Top),
{
    assert forall|face: Face|
        {
            let n = #[trigger] face.world_normal(Quat::no_turn());
            let local = face.normal();
            n.x == local.x * (SCALE * SCALE) && n.y == local.y * (SCALE * SCALE) && n.z == local.z
                * (SCALE * SCALE) && !off_axis(n, tolerance)
        } by {
        match face {
            Face::Top => {},
            Face::Right => {},
            Face::Back => {},
            Face::Front => {},
            Face::Left => {},
            Face::Bottom => {},
        }
    }
}

/// Only one face faces up.
pub proof fn lemma_face_up_is_unique(rotation: Quat, first: Face, second: Face)
    requires
        faces_up(rotation, first),
        faces_up(rotation, second),
    ensures
        first == second,
{
    let a = first.world_normal(rotation).y;
    let b = second.world_normal(rotation).y;
    assert(a <= b && b <= a);
    assert(!(first.pips() < second.pips()));
    assert(!(second.pips() < first.pips()));
}

/// A roll request to a die at rest, flat or cocked, sets it rolling with its
/// timer back at zero and asks for the pushes of a roll, which under a
/// deterministic configuration are the same whatever perturbation is handed
/// in. A roll request to a rolling die changes nothing and asks for nothing.
pub proof fn lemma_roll_request(
    die: DieView,
    config: RollConfig,
    perturbation: Perturbation,
    other: Perturbation,
)
    ensures
        die.state != DieState::Rolling ==> {
            &&& die.rolled().state == DieState::Rolling
            &&& die.rolled().timer.elapsed == 0
            &&& !die.rolled().timer.finished
            &&& die.rolled().timer.duration == die.timer.duration
            &&& die.roll_command(config, perturbation) == initial_roll(config, perturbation)
        },
        die.state == DieState::Rolling ==> {
            &&& die.rolled() == die
            &&& die.roll_command(config, perturbation) == ForceCommand::Hold
        },
        config.deterministic_forces ==> die.roll_command(config, perturbation) == die.roll_command(
            config,
            other,
        ),
        die.rolled().wf(),
{
}

/// One tick of a controller step, as the physics engine feeds it.
pub struct Tick {
    pub delta: u64,
    pub kinematics: BodyKinematics,
}

/// The die after a run of ticks, first to last.
pub open spec fn run(die: DieView, ticks: Seq<Tick>) -> DieView
    decreases ticks.len(),
{
    if ticks.len() == 0 {
        die
    } else {
        run(die, ticks.drop_last()).ticked(ticks.last().delta, ticks.last().kinematics)
    }
}

/// The time that a run of ticks takes, in nanoseconds.
pub open spec fn total_time(ticks: Seq<Tick>) -> int
    decreases ticks.len(),
{
    if ticks.len() == 0 {
        0
    } else {
        total_time(ticks.drop_last()) + ticks.last().delta
    }
}

/// A rolling die leaves that state at no tick before its timer has run the
/// full debounce time, whatever the body does meanwhile: even at rest from
/// the first tick on, it stays rolling.
pub proof fn lemma_debounce_keeps_rolling(die: DieView, ticks: Seq<Tick>)
    requires
        die.state == DieState::Rolling,
        !die.timer.finished,
        die.timer.elapsed + total_time(ticks) < die.timer.duration,
    ensures
        run(die, ticks).state == DieState::Rolling,
        !run(die, ticks).timer.finished,
        run(die, ticks).timer.elapsed == die.timer.elapsed + total_time(ticks),
        run(die, ticks).timer.duration == die.timer.duration,
    decreases ticks.len(),
{
    if ticks.len() > 0 {
        lemma_total_time_is_not_negative(ticks.drop_last());
        lemma_debounce_keeps_rolling(die, ticks.drop_last());
    }
}

/// A run of ticks takes no negative time.
pub proof fn lemma_total_time_is_not_negative(ticks: Seq<Tick>)
    ensures
        0 <= total_time(ticks),
    decreases ticks.len(),
{
    if ticks.len() > 0 {
        lemma_total_time_is_not_negative(ticks.drop_last());
    }
}

/// After a roll request to a die at rest, no run of ticks shorter than the
/// debounce time moves the die out of the rolling state.
pub proof fn lemma_no_settling_before_debounce(die: DieView, ticks: Seq<Tick>)
    requires
        die.state != DieState::Rolling,
        total_time(ticks) < die.timer.duration,
    ensures
        run(die.rolled(), ticks).state == DieState::Rolling,
{
    lemma_debounce_keeps_rolling(die.rolled(), ticks);
}

/// A tick always sends a cocked die rolling again, with no linear impulse
/// and with the corrective angular impulse, which is not zero; the die is
/// never stationary after that tick.
pub proof fn lemma_cocked_die_is_corrected(die: DieView, delta: u64, kinematics: BodyKinematics)
    requires
        die.wf(),
        die.state == DieState::Cocked,
    ensures
        die.ticked(delta, kinematics).state == DieState::Rolling,
        die.tick_command(delta) == corrective_cock(),
        die.tick_command(delta) matches ForceCommand::CorrectCock { impulse, angular_impulse }
            && impulse == zero() && angular_impulse == corrective_angular_impulse()
            && angular_impulse != zero(),
        die.ticked(delta, kinematics).timer == die.timer,
{
}

/// Whatever the controller does keeps a die well formed.
pub proof fn lemma_steps_keep_well_formed(die: DieView, delta: u64, kinematics: BodyKinematics)
    requires
        die.wf(),
    ensures
        die.rolled().wf(),
        die.ticked(delta, kinematics).wf(),
{
}

/// A die is rolling right after any impulse has been asked for, by a roll
/// request or by a tick.
pub proof fn lemma_impulse_means_rolling(
    die: DieView,
    config: RollConfig,
    perturbation: Perturbation,
    delta: u64,
    kinematics: BodyKinematics,
)
    ensures
        die.roll_command(config, perturbation) is InitialRoll ==> die.rolled().state
            == DieState::Rolling,
        !(die.tick_command(delta) is InitialRoll),
        die.tick_command(delta) is CorrectCock ==> die.ticked(delta, kinematics).state
            == DieState::Rolling,
{
}

/// A die leaves the rolling state only at a tick at which its timer has
/// finished and both speeds are under the threshold; it then is cocked if
/// the classifier says so, and stationary otherwise.
pub proof fn lemma_rest_is_examined(die: DieView, delta: u64, kinematics: BodyKinematics)
    requires
        die.state == DieState::Rolling,
        die.ticked(delta, kinematics).state != DieState::Rolling,
    ensures
        die.timer.after_tick(delta).finished,
        kinematics.at_rest(),
        die.ticked(delta, kinematics).state == DieState::Cocked <==> cocked(
            kinematics.rotation,
            COCKED_TOLERANCE as int,
        ),
        die.ticked(delta, kinematics).state == DieState::Stationary <==> die.settles(
            delta,
            kinematics,
        ),
{
}

/// The tick at which a die settles leaves it stationary, and the tick after
/// it, whatever it brings, is not one at which the die settles: each time a
/// die settles, the face that is up is reported once.
pub proof fn lemma_settling_is_reported_once(
    die: DieView,
    delta: u64,
    kinematics: BodyKinematics,
    next_delta: u64,
    next_kinematics: BodyKinematics,
)
    requires
        die.settles(delta, kinematics),
    ensures
        die.state == DieState::Rolling,
        die.ticked(delta, kinematics).state == DieState::Stationary,
        !die.ticked(delta, kinematics).settles(next_delta, next_kinematics),
{
}

/// A tick leaves a stationary die stationary, and once the timer has
/// finished asks for the body to be cleared: after that no force, torque or
/// impulse is left and the body is dynamic.
pub proof fn lemma_stationary_die_clears_body(
    die: DieView,
    delta: u64,
    kinematics: BodyKinematics,
    body: BodyForces,
)
    requires
        die.state == DieState::Stationary,
    ensures
        die.ticked(delta, kinematics).state == DieState::Stationary,
        die.timer.after_tick(delta).finished ==> die.tick_command(delta) == ForceCommand::Clear,
        !die.timer.after_tick(delta).finished ==> die.tick_command(delta) == ForceCommand::Hold,
        body.after(ForceCommand::Clear).is_clear(),
{
}

/// From empty accumulators the pushes of a deterministic roll leave in the
/// body exactly the fixed vectors.
pub proof fn lemma_roll_from_clear_body(body: BodyForces, perturbation: Perturbation)
    requires
        body.is_clear(),
    ensures
        ({
            let after = body.after(
                initial_roll(RollConfig { deterministic_forces: true }, perturbation),
            );
            &&& after.force.x == 0 && after.force.y == -19_620_000 && after.force.z == 0
            &&& after.torque.x == 7_000_000 && after.torque.y == 1_000_000 && after.torque.z
                == 6_000_000
            &&& after.impulse.x == 5_000_000 && after.impulse.y == 1_000_000 && after.impulse.z
                == 5_000_000
            &&& after.angular_impulse.x == 7_000_000 && after.angular_impulse.y == 1_000_000
                && after.angular_impulse.z == 6_000_000
            &&& after.rigid_body == body.rigid_body
        }),
{
}

/// The body after a run of ticks, each tick's command carried out on it.
pub open spec fn run_body(die: DieView, body: BodyForces, ticks: Seq<Tick>) -> BodyForces
    decreases ticks.len(),
{
    if ticks.len() == 0 {
        body
    } else {
        run_body(die, body, ticks.drop_last()).after(
            run(die, ticks.drop_last()).tick_command(ticks.last().delta),
        )
    }
}

/// While the body never comes to rest a rolling die keeps rolling, however
/// long, and asks nothing of the body; its timer runs on until it finishes.
pub proof fn lemma_moving_die_keeps_rolling(die: DieView, body: BodyForces, ticks: Seq<Tick>)
    requires
        die.state == DieState::Rolling,
        forall|i: int| 0 <= i < ticks.len() ==> !(#[trigger] ticks[i]).kinematics.at_rest(),
    ensures
        run(die, ticks).state == DieState::Rolling,
        run_body(die, body, ticks) == body,
        run(die, ticks).timer.duration == die.timer.duration,
        die.timer.finished ==> run(die, ticks).timer.finished,
        !die.timer.finished ==> run(die, ticks).timer.finished || run(die, ticks).timer.elapsed
            == die.timer.elapsed + total_time(ticks),
    decreases ticks.len(),
{
    if ticks.len() > 0 {
        let earlier = ticks.drop_last();
        assert forall|i: int| 0 <= i < earlier.len() implies !(#[trigger] earlier[i]).kinematics.at_rest() by {
            assert(earlier[i] == ticks[i]);
        }
        lemma_moving_die_keeps_rolling(die, body, earlier);
        lemma_total_time_is_not_negative(earlier);
        assert(!ticks[ticks.len() - 1].kinematics.at_rest());
    }
}

/// From rest to rest. A die at rest, with nothing pushing its body, is asked
/// to roll under a deterministic configuration: the body gets exactly the
/// fixed pushes. While the body moves, through any number of ticks, the die
/// rolls and asks for nothing more. At the first tick that finds the body at
/// rest flat on a face, once the debounce time has run, the die settles and
/// is stationary. The tick after that clears the body: no force, torque or
/// impulse is left, and the body is dynamic.
pub proof fn lemma_roll_from_rest_to_rest(
    die: DieView,
    body: BodyForces,
    perturbation: Perturbation,
    tumbling: Seq<Tick>,
    landing: Tick,
    later: Tick,
)
    requires
        die.state != DieState::Rolling,
        body.is_clear(),
        forall|i: int| 0 <= i < tumbling.len() ==> !(#[trigger] tumbling[i]).kinematics.at_rest(),
        die.timer.duration <= total_time(tumbling) + landing.delta,
        landing.kinematics.at_rest(),
        !cocked(landing.kinematics.rotation, COCKED_TOLERANCE as int),
    ensures
        ({
            let config = RollConfig { deterministic_forces: true };
            let pushed = body.after(die.roll_command(config, perturbation));
            let rolling = run(die.rolled(), tumbling);
            let rested = run(die.rolled(), tumbling.push(landing));
            &&& pushed.force == initial_force()
            &&& pushed.torque == initial_torque()
            &&& pushed.impulse == initial_impulse()
            &&& pushed.angular_impulse == initial_angular_impulse()
            &&& die.rolled().state == DieState::Rolling
            &&& rolling.state == DieState::Rolling
            &&& rolling.settles(landing.delta, landing.kinematics)
            &&& rested.state == DieState::Stationary
            &&& run_body(die.rolled(), pushed, tumbling.push(landing)) == pushed
            &&& run(die.rolled(), tumbling.push(landing).push(later)).state == DieState::Stationary
            &&& run_body(die.rolled(), pushed, tumbling.push(landing).push(later)).is_clear()
        }),
{
    let config = RollConfig { deterministic_forces: true };
    let pushed = body.after(die.roll_command(config, perturbation));
    let settled = tumbling.push(landing);
    let all = settled.push(later);
    lemma_moving_die_keeps_rolling(die.rolled(), pushed, tumbling);
    lemma_total_time_is_not_negative(tumbling);
    assert(settled.drop_last() == tumbling);
    assert(settled.last() == landing);
    assert(all.drop_last() == settled);
    assert(all.last() == later);
}

} // verus!
