use dicetown::classifier::{cube_sides, face_up, is_die_cocked, world_normal, Face};
use dicetown::die::COCKED_TOLERANCE;
use dicetown::fixed::{Quat, WorldVec3, SCALE};

const UNIT: i128 = (SCALE as i128) * (SCALE as i128);

const ALL_FACES: [Face; 6] =
    [Face::Top, Face::Right, Face::Back, Face::Front, Face::Left, Face::Bottom];

#[test]
fn cube_sides_are_in_the_order_of_their_pips() {
    assert_eq!(cube_sides(), ALL_FACES);
}

#[test]
fn identity_rotation_is_settled() {
    assert!(!is_die_cocked(&Quat::identity(), COCKED_TOLERANCE));
}

#[test]
fn identity_keeps_the_top_normal_upright() {
    let n = world_normal(&Quat::identity(), Face::Top);
    assert_eq!(n, WorldVec3 { x: 0, y: UNIT, z: 0 });
}

#[test]
fn identity_keeps_every_face_normal() {
    let q = Quat::identity();
    assert_eq!(world_normal(&q, Face::Right), WorldVec3 { x: UNIT, y: 0, z: 0 });
    assert_eq!(world_normal(&q, Face::Back), WorldVec3 { x: 0, y: 0, z: -UNIT });
    assert_eq!(world_normal(&q, Face::Front), WorldVec3 { x: 0, y: 0, z: UNIT });
    assert_eq!(world_normal(&q, Face::Left), WorldVec3 { x: -UNIT, y: 0, z: 0 });
    assert_eq!(world_normal(&q, Face::Bottom), WorldVec3 { x: 0, y: -UNIT, z: 0 });
}

#[test]
fn thirty_degrees_about_the_upright_axis_is_cocked() {
    // sin 30 degrees is one half, inside the band from 0.4 to 0.6
    let q = Quat::new(0, 258_819, 0, 965_926);
    let right = world_normal(&q, Face::Right);
    assert_eq!(right, WorldVec3 { x: 866_025_762_715, y: 0, z: -500_000_002_788 });
    assert!(is_die_cocked(&q, COCKED_TOLERANCE));
}

#[test]
fn forty_five_degrees_about_one_axis_has_no_component_in_the_band() {
    // sin 45 degrees = cos 45 degrees = 0.7071, above the band from 0.4 to 0.6
    let q = Quat::new(0, 382_683, 0, 923_880);
    for face in ALL_FACES {
        let n = world_normal(&q, face);
        for c in [n.x, n.y, n.z] {
            let size = c.abs();
            assert!(!(size > 400_000 * 1_000_000 && size < 600_000 * 1_000_000));
        }
    }
    assert!(!is_die_cocked(&q, COCKED_TOLERANCE));
}

#[test]
fn tilted_about_a_diagonal_is_cocked() {
    // 45 degrees about the axis (1, 0, 1) / sqrt 2
    let q = Quat::new(270_598, 0, 270_598, 923_880);
    let top = world_normal(&q, Face::Top);
    assert_eq!(top, WorldVec3 { x: -500_000_160_480, y: 707_107_699_192, z: 500_000_160_480 });
    assert!(is_die_cocked(&q, COCKED_TOLERANCE));
}

#[test]
fn band_is_open_at_its_lower_end() {
    // a 3-4-5 rotation: components 0.28 and 0.96, exactly
    let q = Quat::new(0, 600_000, 0, 800_000);
    assert_eq!(
        world_normal(&q, Face::Right),
        WorldVec3 { x: 280_000_000_000, y: 0, z: -960_000_000_000 }
    );
    assert!(!is_die_cocked(&q, 280_000));
    assert!(is_die_cocked(&q, 279_999));
}

#[test]
fn band_is_open_at_its_upper_end() {
    // a 7-24-25 rotation: components 0.8432 and 0.5376, exactly
    let q = Quat::new(0, 280_000, 0, 960_000);
    assert_eq!(
        world_normal(&q, Face::Right),
        WorldVec3 { x: 843_200_000_000, y: 0, z: -537_600_000_000 }
    );
    assert!(!is_die_cocked(&q, 462_400));
    assert!(is_die_cocked(&q, 462_399));
}

#[test]
fn empty_band_never_reports_cocked() {
    let q = Quat::new(0, 258_819, 0, 965_926);
    assert!(!is_die_cocked(&q, 500_000));
    assert!(!is_die_cocked(&q, 700_000));
    assert!(!is_die_cocked(&q, i64::MAX));
}

#[test]
fn negative_tolerance_widens_the_band_past_zero_and_one() {
    assert!(is_die_cocked(&Quat::identity(), -1));
    assert!(!is_die_cocked(&Quat::identity(), 0));
    assert!(is_die_cocked(&Quat::identity(), i64::MIN));
}

#[test]
fn face_up_follows_quarter_turns() {
    assert_eq!(face_up(&Quat::identity()), Face::Top);
    assert_eq!(face_up(&Quat::new(0, 0, 707_107, 707_107)), Face::Right);
    assert_eq!(face_up(&Quat::new(707_107, 0, 0, 707_107)), Face::Back);
    assert_eq!(face_up(&Quat::new(-707_107, 0, 0, 707_107)), Face::Front);
    assert_eq!(face_up(&Quat::new(0, 0, -707_107, 707_107)), Face::Left);
    assert_eq!(face_up(&Quat::new(1_000_000, 0, 0, 0)), Face::Bottom);
}

#[test]
fn face_up_breaks_ties_by_fewest_pips() {
    // all six normals vanish under the zero quaternion
    assert_eq!(face_up(&Quat::new(0, 0, 0, 0)), Face::Top);
    // 45 degrees about the depth axis: top and right reach almost equally high
    let q = Quat::new(0, 0, 382_683, 923_880);
    assert_eq!(world_normal(&q, Face::Top).y, 707_107_975_911);
    assert_eq!(world_normal(&q, Face::Right).y, 707_106_340_080);
    assert_eq!(face_up(&q), Face::Top);
    // the 3-4-5 rotation about the depth axis lifts the right face highest
    let q = Quat::new(0, 0, 600_000, 800_000);
    assert_eq!(world_normal(&q, Face::Right).y, 960_000_000_000);
    assert_eq!(world_normal(&q, Face::Top).y, 280_000_000_000);
    assert_eq!(face_up(&q), Face::Right);
}

#[test]
fn face_up_is_the_highest_normal() {
    let rotations = [
        Quat::new(0, 258_819, 0, 965_926),
        Quat::new(270_598, 0, 270_598, 923_880),
        Quat::new(500_000, 500_000, 500_000, 500_000),
        Quat::new(-183_013, 683_013, 183_013, 683_013),
        Quat::new(i32::MAX, i32::MIN, i32::MAX, i32::MIN),
    ];
    for q in rotations {
        let up = face_up(&q);
        let top = world_normal(&q, up).y;
        for face in ALL_FACES {
            let height = world_normal(&q, face).y;
            assert!(height <= top);
            if face.number() < up.number() {
                assert!(height < top);
            }
        }
    }
}

#[test]
fn faces_are_numbered_one_to_six() {
    let numbers: Vec<u8> = ALL_FACES.iter().map(|face| face.number()).collect();
    assert_eq!(numbers, vec![1, 2, 3, 4, 5, 6]);
    for face in ALL_FACES {
        assert_eq!(Face::from_number(face.number()), Some(face));
    }
    assert_eq!(Face::from_number(0), None);
    assert_eq!(Face::from_number(7), None);
    assert_eq!(Face::from_number(255), None);
}

#[test]
fn extreme_components_do_not_overflow() {
    let q = Quat::new(i32::MIN, i32::MIN, i32::MIN, i32::MIN);
    let w = i32::MIN as i128;
    let n = world_normal(&q, Face::Top);
    // v k + b (2 b.v) + 2 w (b x v) with v = (0, 1, 0)
    let k = w * w - 3 * w * w;
    assert_eq!(n, WorldVec3 {
        x: 2 * w * w + 2 * w * (-w),
        y: k + 2 * w * w,
        z: 2 * w * w + 2 * w * w,
    });
    assert!(!is_die_cocked(&q, COCKED_TOLERANCE));
}
