//! The die-roll controller: a state machine, stepped once per simulation
//! tick, that starts a roll on request, waits out a debounce time, and then
//! watches the body until it rests flat on a face.

use crate::classifier::{cocked, face_up, faces_up, is_die_cocked, Face};
use crate::fixed::{Quat, Vec3};
use crate::forces::{
    apply_initial_forces, corrective_cock, initial_roll, ForceCommand, Perturbation, RollConfig,
    CORRECTION_LEVEL, CORRECTION_UPRIGHT,
};
use crate::timer::SettleTimer;
use vstd::prelude::*;

verus! {

/// Speed, linear or angular, under which a body counts as at rest, in
/// millionths of a unit per second.
pub const VELOCITY_THRESHOLD: i64 = 400_000;

/// Tolerance of the cocked-die test, in millionths.
pub const COCKED_TOLERANCE: i64 = 400_000;

/// Time after a roll request during which the die is not examined, in
/// nanoseconds.
pub const SETTLE_DEBOUNCE: u64 = 100_000_000;

/// What a die is doing.
#[derive(Clone, Copy, Debug, PartialEq, Eq, Structural)]
pub enum DieState {
    /// In motion, or not yet examined.
    Rolling,
    /// At rest, flat on a face.
    Stationary,
    /// At rest, but on an edge or a corner.
    Cocked,
}

/// What the physics engine reports of a body at one tick.
#[derive(Clone, Copy, Debug, PartialEq, Eq, Structural)]
pub struct BodyKinematics {
    pub rotation: Quat,
    pub linear_velocity: Vec3,
    pub angular_velocity: Vec3,
}

impl BodyKinematics {
    /// Whether both speeds are strictly under the threshold.
    pub open spec fn at_rest(self) -> bool {
        &&& self.linear_velocity.shorter_than(VELOCITY_THRESHOLD as int)
        &&& self.angular_velocity.shorter_than(VELOCITY_THRESHOLD as int)
    }

    /// Tests whether both speeds are strictly under the threshold.
    pub fn is_at_rest(&self) -> (rest: bool)
        ensures
            rest == self.at_rest(),
    {
        self.linear_velocity.length_below(VELOCITY_THRESHOLD) && self.angular_velocity.length_below(
            VELOCITY_THRESHOLD,
        )
    }
}

/// The value of a die: its state and its debounce timer.
pub struct DieView {
    pub state: DieState,
    pub timer: SettleTimer,
}

impl DieView {
    /// Whether the die can have come about: a cocked die has a finished
    /// timer. Only an examination finds a die cocked, examinations wait for
    /// the timer, and nothing restarts the timer but a roll request, which
    /// leaves the die rolling.
    pub open spec fn wf(self) -> bool {
        self.state == DieState::Cocked ==> self.timer.finished
    }

    /// The die after a roll request: a die at rest starts rolling with its
    /// timer at zero; a rolling die is left alone.
    pub open spec fn rolled(self) -> DieView {
        if self.state == DieState::Rolling {
            self
        } else {
            DieView { state: DieState::Rolling, timer: self.timer.after_reset() }
        }
    }

    /// What a roll request asks of the body.
    pub open spec fn roll_command(self, config: RollConfig, perturbation: Perturbation)
        -> ForceCommand {
        if self.state == DieState::Rolling {
            ForceCommand::Hold
        } else {
            initial_roll(config, perturbation)
        }
    }

    /// Whether an examination finds a rolling die at rest flat on a face.
    pub open spec fn comes_to_rest(self, kinematics: BodyKinematics) -> bool {
        &&& self.state == DieState::Rolling
        &&& kinematics.at_rest()
        &&& !cocked(kinematics.rotation, COCKED_TOLERANCE as int)
    }

    /// The state after an examination.
    pub open spec fn examined(self, kinematics: BodyKinematics) -> DieState {
        match self.state {
            DieState::Rolling => {
                if !kinematics.at_rest() {
                    DieState::Rolling
                } else if cocked(kinematics.rotation, COCKED_TOLERANCE as int) {
                    DieState::Cocked
                } else {
                    DieState::Stationary
                }
            },
            DieState::Cocked => DieState::Rolling,
            DieState::Stationary => DieState::Stationary,
        }
    }

    /// What an examination asks of the body.
    pub open spec fn examination_command(self) -> ForceCommand {
        match self.state {
            DieState::Rolling => ForceCommand::Hold,
            DieState::Cocked => corrective_cock(),
            DieState::Stationary => ForceCommand::Clear,
        }
    }

    /// The die after a tick of `delta` nanoseconds: the timer advances, and
    /// once it has finished the die is examined.
    pub open spec fn ticked(self, delta: u64, kinematics: BodyKinematics) -> DieView {
        let timer = self.timer.after_tick(delta);
        if timer.finished {
            DieView { state: self.examined(kinematics), timer }
        } else {
            DieView { state: self.state, timer }
        }
    }

    /// What a tick of `delta` nanoseconds asks of the body.
    pub open spec fn tick_command(self, delta: u64) -> ForceCommand {
        if self.timer.after_tick(delta).finished {
            self.examination_command()
        } else {
            ForceCommand::Hold
        }
    }

    /// Whether a tick of `delta` nanoseconds is the one at which the die
    /// settles.
    pub open spec fn settles(self, delta: u64, kinematics: BodyKinematics) -> bool {
        self.timer.after_tick(delta).finished && self.comes_to_rest(kinematics)
    }
}

/// What one tick produced.
#[derive(Clone, Copy, Debug, PartialEq, Eq, Structural)]
pub struct TickOutcome {
    /// What the body is asked to do.
    pub command: ForceCommand,
    /// The face that is up, at the one tick at which the die settles.
    pub settled: Option<Face>,
}

/// One rollable die.
#[derive(Clone, Copy, Debug, PartialEq, Eq)]
pub struct Die {
    state: DieState,
    spin_timer: SettleTimer,
}

impl View for Die {
    type V = DieView;

    closed spec fn view(&self) -> DieView {
        DieView { state: self.state, timer: self.spin_timer }
    }
}

impl Die {
    #[verifier::type_invariant]
    spec fn inv(self) -> bool {
        self@.wf()
    }

    /// A die at rest whose timer, not yet started, runs for `debounce`
    /// nanoseconds.
    pub fn new(debounce: u64) -> (die: Die)
        ensures
            die@ == (DieView {
                state: DieState::Stationary,
                timer: SettleTimer { elapsed: 0, duration: debounce, finished: false },
            }),
    {
        Die { state: DieState::Stationary, spin_timer: SettleTimer::new(debounce) }
    }

    /// What the die is doing.
    pub fn state(&self) -> (state: DieState)
        ensures
            state == self@.state,
    {
        self.state
    }

    /// The debounce timer.
    pub fn spin_timer(&self) -> (timer: SettleTimer)
        ensures
            timer == self@.timer,
    {
        self.spin_timer
    }
}

/// Handles a roll request. A die at rest, flat or cocked, starts rolling:
/// its timer restarts and the body gets the pushes of a roll. A die that is
/// already rolling is left alone.
pub fn roll_die(die: &mut Die, config: &RollConfig, perturbation: &Perturbation) -> (command:
    ForceCommand)
    ensures
        final(die)@ == old(die)@.rolled(),
        command == old(die)@.roll_command(*config, *perturbation),
{
    match die.state {
        DieState::Rolling => ForceCommand::Hold,
        _ => {
            let mut timer = die.spin_timer;
            timer.reset();
            die.state = DieState::Rolling;
            die.spin_timer = timer;
            apply_initial_forces(config, perturbation)
        },
    }
}

/// Examines a rolling die: once both speeds are under the threshold, the
/// die is found cocked or flat on a face. Returns the face that is up when
/// the die has settled flat.
fn check_roll_completion(die: &mut Die, kinematics: &BodyKinematics) -> (settled: Option<Face>)
    requires
        old(die)@.state == DieState::Rolling,
        old(die)@.timer.finished,
    ensures
        final(die)@.timer == old(die)@.timer,
        final(die)@.state == old(die)@.examined(*kinematics),
        settled is Some <==> old(die)@.comes_to_rest(*kinematics),
        settled matches Some(face) ==> faces_up(kinematics.rotation, face),
{
    if kinematics.is_at_rest() {
        if is_die_cocked(&kinematics.rotation, COCKED_TOLERANCE) {
            die.state = DieState::Cocked;
            None
        } else {
            die.state = DieState::Stationary;
            Some(face_up(&kinematics.rotation))
        }
    } else {
        None
    }
}

/// Sends a cocked die rolling again with the corrective nudge.
fn handle_cocked_die(die: &mut Die) -> (command: ForceCommand)
    ensures
        final(die)@.timer == old(die)@.timer,
        final(die)@.state == DieState::Rolling,
        command == corrective_cock(),
{
    die.state = DieState::Rolling;
    ForceCommand::CorrectCock {
        impulse: Vec3::zero(),
        angular_impulse: Vec3::new(CORRECTION_LEVEL, CORRECTION_UPRIGHT, CORRECTION_LEVEL),
    }
}

/// What a die flat on a face asks of its body: to drop every residual push.
fn display_roll_result() -> (command: ForceCommand)
    ensures
        command == ForceCommand::Clear,
{
    ForceCommand::Clear
}

/// Examines a die whose timer has finished.
fn handle_die_state(die: &mut Die, kinematics: &BodyKinematics) -> (outcome: TickOutcome)
    requires
        old(die)@.timer.finished,
    ensures
        final(die)@.timer == old(die)@.timer,
        final(die)@.state == old(die)@.examined(*kinematics),
        outcome.command == old(die)@.examination_command(),
        outcome.settled is Some <==> old(die)@.comes_to_rest(*kinematics),
        outcome.settled matches Some(face) ==> faces_up(kinematics.rotation, face),
{
    match die.state {
        DieState::Rolling => {
            let settled = check_roll_completion(die, kinematics);
            TickOutcome { command: ForceCommand::Hold, settled }
        },
        DieState::Cocked => {
            let command = handle_cocked_die(die);
            TickOutcome { command, settled: None }
        },
        DieState::Stationary => TickOutcome { command: display_roll_result(), settled: None },
    }
}

/// Steps the controller by one tick of `delta` nanoseconds, with what the
/// physics engine reports of the body after its own step.
///
/// The timer advances first. Until it has finished nothing else happens.
/// From then on every tick examines the die: a rolling die at rest becomes
/// stationary or cocked, a cocked die is nudged and rolls again, and a
/// stationary die has its body cleared.
pub fn update_die(die: &mut Die, delta: u64, kinematics: &BodyKinematics) -> (outcome: TickOutcome)
    ensures
        final(die)@ == old(die)@.ticked(delta, *kinematics),
        outcome.command == old(die)@.tick_command(delta),
        outcome.settled is Some <==> old(die)@.settles(delta, *kinematics),
        outcome.settled matches Some(face) ==> faces_up(kinematics.rotation, face),
        old(die)@.state == DieState::Cocked ==> final(die)@.state == DieState::Rolling
            && outcome.command == corrective_cock(),
{
    proof {
        use_type_invariant(&*die);
    }
    let mut timer = die.spin_timer;
    timer.tick(delta);
    die.spin_timer = timer;
    if timer.finished() {
        handle_die_state(die, kinematics)
    } else {
        TickOutcome { command: ForceCommand::Hold, settled: None }
    }
}

} // verus!
