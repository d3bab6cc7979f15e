use dicetown::fixed::Vec3;
use dicetown::forces::{
    apply_initial_forces, BodyForces, ForceCommand, Perturbation, RigidBody, RollConfig,
    CORRECTION_LEVEL, CORRECTION_UPRIGHT, ROLL_FORCE_DOWN,
};

fn fixed_roll() -> ForceCommand {
    ForceCommand::InitialRoll {
        force: Vec3 { x: 0, y: -19_620_000, z: 0 },
        torque: Vec3 { x: 7_000_000, y: 1_000_000, z: 6_000_000 },
        impulse: Vec3 { x: 5_000_000, y: 1_000_000, z: 5_000_000 },
        angular_impulse: Vec3 { x: 7_000_000, y: 1_000_000, z: 6_000_000 },
    }
}

#[test]
fn deterministic_roll_is_the_fixed_pushes() {
    let command = apply_initial_forces(&RollConfig::deterministic(), &Perturbation::none());
    assert_eq!(command, fixed_roll());
}

#[test]
fn deterministic_roll_ignores_the_perturbation() {
    let shake = Perturbation {
        impulse: Vec3 { x: 123, y: -456, z: 789 },
        angular_impulse: Vec3 { x: i64::MAX, y: i64::MIN, z: 1 },
    };
    let command = apply_initial_forces(&RollConfig { deterministic_forces: true }, &shake);
    assert_eq!(command, fixed_roll());
}

#[test]
fn perturbed_roll_offsets_the_two_impulses_only() {
    let shake = Perturbation {
        impulse: Vec3 { x: 250_000, y: -1_000_000, z: 0 },
        angular_impulse: Vec3 { x: -7_000_000, y: 500_000, z: 1 },
    };
    let command = apply_initial_forces(&RollConfig { deterministic_forces: false }, &shake);
    assert_eq!(
        command,
        ForceCommand::InitialRoll {
            force: Vec3 { x: 0, y: -19_620_000, z: 0 },
            torque: Vec3 { x: 7_000_000, y: 1_000_000, z: 6_000_000 },
            impulse: Vec3 { x: 5_250_000, y: 0, z: 5_000_000 },
            angular_impulse: Vec3 { x: 0, y: 1_500_000, z: 6_000_001 },
        }
    );
}

#[test]
fn perturbed_roll_saturates() {
    let shake = Perturbation {
        impulse: Vec3 { x: i64::MAX, y: i64::MIN, z: i64::MAX - 5_000_000 },
        angular_impulse: Vec3 { x: 0, y: 0, z: 0 },
    };
    let command = apply_initial_forces(&RollConfig { deterministic_forces: false }, &shake);
    assert_eq!(
        command,
        ForceCommand::InitialRoll {
            force: Vec3 { x: 0, y: -19_620_000, z: 0 },
            torque: Vec3 { x: 7_000_000, y: 1_000_000, z: 6_000_000 },
            impulse: Vec3 { x: i64::MAX, y: i64::MIN + 1_000_000, z: i64::MAX },
            angular_impulse: Vec3 { x: 7_000_000, y: 1_000_000, z: 6_000_000 },
        }
    );
}

#[test]
fn unperturbed_roll_without_determinism_is_the_fixed_pushes() {
    let command =
        apply_initial_forces(&RollConfig { deterministic_forces: false }, &Perturbation::none());
    assert_eq!(command, fixed_roll());
}

#[test]
fn named_constants_have_their_values() {
    assert_eq!(ROLL_FORCE_DOWN, -19_620_000);
    assert_eq!(CORRECTION_LEVEL, -150_000);
    assert_eq!(CORRECTION_UPRIGHT, -50_000);
}

#[test]
fn new_body_is_clear_and_dynamic() {
    let zero = Vec3 { x: 0, y: 0, z: 0 };
    assert_eq!(
        BodyForces::new(),
        BodyForces {
            force: zero,
            torque: zero,
            impulse: zero,
            angular_impulse: zero,
            rigid_body: RigidBody::Dynamic,
        }
    );
}

#[test]
fn hold_leaves_the_body_alone() {
    let mut body = BodyForces {
        force: Vec3 { x: 1, y: 2, z: 3 },
        torque: Vec3 { x: 4, y: 5, z: 6 },
        impulse: Vec3 { x: 7, y: 8, z: 9 },
        angular_impulse: Vec3 { x: 10, y: 11, z: 12 },
        rigid_body: RigidBody::Kinematic,
    };
    let before = body;
    body.apply(&ForceCommand::Hold);
    assert_eq!(body, before);
}

#[test]
fn initial_roll_adds_to_the_accumulators() {
    let mut body = BodyForces {
        force: Vec3 { x: 1, y: 2, z: 3 },
        torque: Vec3 { x: 4, y: 5, z: 6 },
        impulse: Vec3 { x: 7, y: 8, z: 9 },
        angular_impulse: Vec3 { x: 10, y: 11, z: 12 },
        rigid_body: RigidBody::Static,
    };
    body.apply(&fixed_roll());
    assert_eq!(
        body,
        BodyForces {
            force: Vec3 { x: 1, y: -19_619_998, z: 3 },
            torque: Vec3 { x: 7_000_004, y: 1_000_005, z: 6_000_006 },
            impulse: Vec3 { x: 5_000_007, y: 1_000_008, z: 5_000_009 },
            angular_impulse: Vec3 { x: 7_000_010, y: 1_000_011, z: 6_000_012 },
            rigid_body: RigidBody::Static,
        }
    );
}

#[test]
fn initial_roll_on_a_clear_body_leaves_the_fixed_pushes() {
    let mut body = BodyForces::new();
    body.apply(&fixed_roll());
    assert_eq!(body.force, Vec3 { x: 0, y: -19_620_000, z: 0 });
    assert_eq!(body.torque, Vec3 { x: 7_000_000, y: 1_000_000, z: 6_000_000 });
    assert_eq!(body.impulse, Vec3 { x: 5_000_000, y: 1_000_000, z: 5_000_000 });
    assert_eq!(body.angular_impulse, Vec3 { x: 7_000_000, y: 1_000_000, z: 6_000_000 });
    assert_eq!(body.rigid_body, RigidBody::Dynamic);
}

#[test]
fn rolling_twice_adds_twice() {
    let mut body = BodyForces::new();
    body.apply(&fixed_roll());
    body.apply(&fixed_roll());
    assert_eq!(body.force, Vec3 { x: 0, y: -39_240_000, z: 0 });
    assert_eq!(body.impulse, Vec3 { x: 10_000_000, y: 2_000_000, z: 10_000_000 });
}

#[test]
fn accumulators_saturate() {
    let mut body = BodyForces::new();
    body.force = Vec3 { x: i64::MAX, y: i64::MIN, z: i64::MIN + 1 };
    body.apply(&ForceCommand::InitialRoll {
        force: Vec3 { x: 1, y: -1, z: -1 },
        torque: Vec3 { x: 0, y: 0, z: 0 },
        impulse: Vec3 { x: 0, y: 0, z: 0 },
        angular_impulse: Vec3 { x: 0, y: 0, z: 0 },
    });
    assert_eq!(body.force, Vec3 { x: i64::MAX, y: i64::MIN, z: i64::MIN });
}

#[test]
fn correction_overwrites_the_two_impulses() {
    let mut body = BodyForces {
        force: Vec3 { x: 1, y: 2, z: 3 },
        torque: Vec3 { x: 4, y: 5, z: 6 },
        impulse: Vec3 { x: 7, y: 8, z: 9 },
        angular_impulse: Vec3 { x: 10, y: 11, z: 12 },
        rigid_body: RigidBody::Dynamic,
    };
    body.apply(&ForceCommand::CorrectCock {
        impulse: Vec3 { x: 0, y: 0, z: 0 },
        angular_impulse: Vec3 { x: -150_000, y: -50_000, z: -150_000 },
    });
    assert_eq!(
        body,
        BodyForces {
            force: Vec3 { x: 1, y: 2, z: 3 },
            torque: Vec3 { x: 4, y: 5, z: 6 },
            impulse: Vec3 { x: 0, y: 0, z: 0 },
            angular_impulse: Vec3 { x: -150_000, y: -50_000, z: -150_000 },
            rigid_body: RigidBody::Dynamic,
        }
    );
}

#[test]
fn clear_zeroes_everything_and_frees_the_body() {
    let mut body = BodyForces {
        force: Vec3 { x: 1, y: 2, z: 3 },
        torque: Vec3 { x: 4, y: 5, z: 6 },
        impulse: Vec3 { x: 7, y: 8, z: 9 },
        angular_impulse: Vec3 { x: 10, y: 11, z: 12 },
        rigid_body: RigidBody::Kinematic,
    };
    body.apply(&ForceCommand::Clear);
    assert_eq!(body, BodyForces::new());
}
