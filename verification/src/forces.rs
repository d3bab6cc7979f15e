//! What the controller asks of the physics body: the fixed pushes of a
//! roll, the nudge that topples a cocked die, and the clearing of all
//! residual pushes once the die has come to rest.

use crate::fixed::Vec3;
use vstd::prelude::*;

verus! {

/// How the physics engine simulates a body.
#[derive(Clone, Copy, Debug, PartialEq, Eq, Structural)]
pub enum RigidBody {
    /// Moved by forces and contacts, without constraint.
    Dynamic,
    /// Never moves.
    Static,
    /// Moved by its velocity alone.
    Kinematic,
}

/// An optional random offset for the two impulses of a roll, drawn by the
/// caller from its own seeded source.
#[derive(Clone, Copy, Debug, PartialEq, Eq, Structural)]
pub struct Perturbation {
    pub impulse: Vec3,
    pub angular_impulse: Vec3,
}

/// Whether every roll gets the same pushes.
#[derive(Clone, Copy, Debug, PartialEq, Eq, Structural)]
pub struct RollConfig {
    /// When set, a roll ignores the perturbation it is handed and applies
    /// the fixed pushes alone, so that a roll can be replayed exactly.
    pub deterministic_forces: bool,
}

/// One request to the physics body.
#[derive(Clone, Copy, Debug, PartialEq, Eq, Structural)]
pub enum ForceCommand {
    /// Leave the body as it is.
    Hold,
    /// Start a roll: add each vector to the body's accumulator of that name.
    InitialRoll { force: Vec3, torque: Vec3, impulse: Vec3, angular_impulse: Vec3 },
    /// Topple a cocked die: overwrite the two impulse accumulators.
    CorrectCock { impulse: Vec3, angular_impulse: Vec3 },
    /// Zero all four accumulators and make the body dynamic.
    Clear,
}

/// The force, torque and impulse accumulators of one body, and its mode.
#[derive(Clone, Copy, Debug, PartialEq, Eq, Structural)]
pub struct BodyForces {
    pub force: Vec3,
    pub torque: Vec3,
    pub impulse: Vec3,
    pub angular_impulse: Vec3,
    pub rigid_body: RigidBody,
}

/// Downward force of a roll, in millionths: twice the weight of a unit mass.
pub const ROLL_FORCE_DOWN: i64 = -19_620_000;

/// Corrective angular impulse about the two level axes, in millionths.
pub const CORRECTION_LEVEL: i64 = -150_000;

/// Corrective angular impulse about the upright axis, in millionths.
pub const CORRECTION_UPRIGHT: i64 = -50_000;

/// The vector with all components zero.
pub open spec fn zero() -> Vec3 {
    Vec3 { x: 0, y: 0, z: 0 }
}

/// Continuous force of a roll.
pub open spec fn initial_force() -> Vec3 {
    Vec3 { x: 0, y: ROLL_FORCE_DOWN, z: 0 }
}

/// Continuous torque of a roll.
pub open spec fn initial_torque() -> Vec3 {
    Vec3 { x: 7_000_000, y: 1_000_000, z: 6_000_000 }
}

/// Linear impulse of a roll.
pub open spec fn initial_impulse() -> Vec3 {
    Vec3 { x: 5_000_000, y: 1_000_000, z: 5_000_000 }
}

/// Angular impulse of a roll.
pub open spec fn initial_angular_impulse() -> Vec3 {
    Vec3 { x: 7_000_000, y: 1_000_000, z: 6_000_000 }
}

/// Angular impulse that topples a cocked die.
pub open spec fn corrective_angular_impulse() -> Vec3 {
    Vec3 { x: CORRECTION_LEVEL, y: CORRECTION_UPRIGHT, z: CORRECTION_LEVEL }
}

/// The command that starts a roll: the fixed pushes, with the perturbation
/// added to the two impulses unless the configuration is deterministic.
pub open spec fn initial_roll(config: RollConfig, perturbation: Perturbation) -> ForceCommand {
    if config.deterministic_forces {
        ForceCommand::InitialRoll {
            force: initial_force(),
            torque: initial_torque(),
            impulse: initial_impulse(),
            angular_impulse: initial_angular_impulse(),
        }
    } else {
        ForceCommand::InitialRoll {
            force: initial_force(),
            torque: initial_torque(),
            impulse: initial_impulse().plus(perturbation.impulse),
            angular_impulse: initial_angular_impulse().plus(perturbation.angular_impulse),
        }
    }
}

/// The command that topples a cocked die: no linear impulse, and the fixed
/// corrective angular impulse.
pub open spec fn corrective_cock() -> ForceCommand {
    ForceCommand::CorrectCock { impulse: zero(), angular_impulse: corrective_angular_impulse() }
}

impl Perturbation {
    /// The perturbation that changes nothing.
    pub fn none() -> (p: Perturbation)
        ensures
            p == (Perturbation { impulse: zero(), angular_impulse: zero() }),
    {
        Perturbation { impulse: Vec3::zero(), angular_impulse: Vec3::zero() }
    }
}

impl RollConfig {
    /// The configuration under which every roll gets the same pushes.
    pub fn deterministic() -> (config: RollConfig)
        ensures
            config.deterministic_forces,
    {
        RollConfig { deterministic_forces: true }
    }
}

impl BodyForces {
    /// The body after `command` has been carried out on it.
    pub open spec fn after(self, command: ForceCommand) -> BodyForces {
        match command {
            ForceCommand::Hold => self,
            ForceCommand::InitialRoll { force, torque, impulse, angular_impulse } => BodyForces {
                force: self.force.plus(force),
                torque: self.torque.plus(torque),
                impulse: self.impulse.plus(impulse),
                angular_impulse: self.angular_impulse.plus(angular_impulse),
                rigid_body: self.rigid_body,
            },
            ForceCommand::CorrectCock { impulse, angular_impulse } => BodyForces {
                force: self.force,
                torque: self.torque,
                impulse,
                angular_impulse,
                rigid_body: self.rigid_body,
            },
            ForceCommand::Clear => BodyForces {
                force: zero(),
                torque: zero(),
                impulse: zero(),
                angular_impulse: zero(),
                rigid_body: RigidBody::Dynamic,
            },
        }
    }

    /// Whether nothing pushes the body and it is simulated without constraint.
    pub open spec fn is_clear(self) -> bool {
        &&& self.force == zero()
        &&& self.torque == zero()
        &&& self.impulse == zero()
        &&& self.angular_impulse == zero()
        &&& self.rigid_body == RigidBody::Dynamic
    }

    /// A dynamic body with empty accumulators.
    pub fn new() -> (body: BodyForces)
        ensures
            body.is_clear(),
    {
        BodyForces {
            force: Vec3::zero(),
            torque: Vec3::zero(),
            impulse: Vec3::zero(),
            angular_impulse: Vec3::zero(),
            rigid_body: RigidBody::Dynamic,
        }
    }

    /// Carries out `command` on the body.
    pub fn apply(&mut self, command: &ForceCommand)
        ensures
            *final(self) == old(self).after(*command),
    {
        match command {
            ForceCommand::Hold => {},
            ForceCommand::InitialRoll { force, torque, impulse, angular_impulse } => {
                self.force = self.force.saturating_add(force);
                self.torque = self.torque.saturating_add(torque);
                self.impulse = self.impulse.saturating_add(impulse);
                self.angular_impulse = self.angular_impulse.saturating_add(angular_impulse);
            },
            ForceCommand::CorrectCock { impulse, angular_impulse } => {
                self.impulse = *impulse;
                self.angular_impulse = *angular_impulse;
            },
            ForceCommand::Clear => {
                self.force = Vec3::zero();
                self.torque = Vec3::zero();
                self.impulse = Vec3::zero();
                self.angular_impulse = Vec3::zero();
                self.rigid_body = RigidBody::Dynamic;
            },
        }
    }
}

/// Builds the command that starts a roll.
pub fn apply_initial_forces(config: &RollConfig, perturbation: &Perturbation) -> (command:
    ForceCommand)
    ensures
        command == initial_roll(*config, *perturbation),
{
    let impulse = Vec3::new(5_000_000, 1_000_000, 5_000_000);
    let angular_impulse = Vec3::new(7_000_000, 1_000_000, 6_000_000);
    if config.deterministic_forces {
        ForceCommand::InitialRoll {
            force: Vec3::new(0, ROLL_FORCE_DOWN, 0),
            torque: Vec3::new(7_000_000, 1_000_000, 6_000_000),
            impulse,
            angular_impulse,
        }
    } else {
        ForceCommand::InitialRoll {
            force: Vec3::new(0, ROLL_FORCE_DOWN, 0),
            torque: Vec3::new(7_000_000, 1_000_000, 6_000_000),
            impulse: impulse.saturating_add(&perturbation.impulse),
            angular_impulse: angular_impulse.saturating_add(&perturbation.angular_impulse),
        }
    }
}

} // verus!
