use entity_align::{
    align_entities, compose_translation, resolve_entity, select3, Affine, AlignEntry, AlignError,
    AlignPlugin, AlignReport, Aligning, AligningBundle, AxisMask, Matrix3, Transform, Vector3,
    WorldTransforms, FRAME_BOUND, NO_ENTITY,
};

fn vec3(x: i64, y: i64, z: i64) -> Vector3 {
    Vector3::new(x, y, z)
}

fn world_at(x: i64, y: i64, z: i64) -> Affine {
    Affine::from_translation(vec3(x, y, z)).unwrap()
}

#[test]
fn default_aligning_is_inert() {
    let a = Aligning::default();
    assert_eq!(a.target, NO_ENTITY);
    assert_eq!(a.target, u64::MAX);
    assert!(!a.enabled.x && !a.enabled.y && !a.enabled.z);
    let m = AxisMask::default();
    assert!(!m.x && !m.y && !m.z);
}

#[test]
fn no_parent_enabled_y_takes_world_y_zero() {
    let mut globals = WorldTransforms::new();
    globals.insert(1, world_at(150, 0, 0));
    let aligning = Aligning::new(1, AxisMask::new(false, true, false));
    let mut transform = Transform::from_translation(vec3(0, 0, 0));
    let r = resolve_entity(&aligning, &mut transform, None, &globals);
    assert_eq!(r, Ok(()));
    assert_eq!(transform.translation, vec3(0, 0, 0));
}

#[test]
fn no_parent_enabled_y_takes_world_y_fifty() {
    let mut globals = WorldTransforms::new();
    globals.insert(1, world_at(150, 50, 0));
    let aligning = Aligning::new(1, AxisMask::new(false, true, false));
    let mut transform = Transform::from_translation(vec3(0, 0, 0));
    let r = resolve_entity(&aligning, &mut transform, None, &globals);
    assert_eq!(r, Ok(()));
    assert_eq!(transform.translation, vec3(0, 50, 0));
}

#[test]
fn axis_selectivity_under_translated_frame() {
    let mut globals = WorldTransforms::new();
    globals.insert(1, world_at(100, 200, 300));
    globals.insert(2, world_at(10, 20, 30));
    let aligning = Aligning::new(1, AxisMask::new(true, false, true));
    let mut transform = Transform::from_translation(vec3(1, 2, 3));
    let r = resolve_entity(&aligning, &mut transform, Some(2), &globals);
    assert_eq!(r, Ok(()));
    // target re-expressed in the parent frame is (90, 180, 270); only X and Z
    // are enabled, Y keeps its previous value.
    assert_eq!(transform.translation, vec3(90, 2, 270));
}

#[test]
fn rotated_frame_is_fully_rebased() {
    // The parent frame rotates a quarter turn about Z: its linear part maps
    // (x, y, z) to (-y, x, z); the stored inverse maps (x, y, z) to (y, -x, z).
    let linear = Matrix3 { m00: 0, m01: -1, m02: 0, m10: 1, m11: 0, m12: 0, m20: 0, m21: 0, m22: 1 };
    let inverse = Matrix3 { m00: 0, m01: 1, m02: 0, m10: -1, m11: 0, m12: 0, m20: 0, m21: 0, m22: 1 };
    let frame = Affine::new(linear, inverse, vec3(0, 0, 0)).unwrap();
    let mut globals = WorldTransforms::new();
    globals.insert(1, world_at(5, 7, 0));
    globals.insert(2, frame);
    let aligning = Aligning::new(1, AxisMask::new(true, true, true));
    let mut transform = Transform::from_translation(vec3(0, 0, 0));
    let r = resolve_entity(&aligning, &mut transform, Some(2), &globals);
    assert_eq!(r, Ok(()));
    assert_eq!(transform.translation, vec3(7, -5, 0));
}

#[test]
fn sheared_frame_is_fully_rebased() {
    // A shear along X by Y: linear maps (x, y, z) to (x + y, y, z), and the
    // stored inverse maps (x, y, z) to (x - y, y, z).
    let linear = Matrix3 { m00: 1, m01: 1, m02: 0, m10: 0, m11: 1, m12: 0, m20: 0, m21: 0, m22: 1 };
    let inverse = Matrix3 { m00: 1, m01: -1, m02: 0, m10: 0, m11: 1, m12: 0, m20: 0, m21: 0, m22: 1 };
    let frame = Affine::new(linear, inverse, vec3(100, 0, 0)).unwrap();
    let mut globals = WorldTransforms::new();
    globals.insert(1, world_at(110, 4, 9));
    globals.insert(2, frame);
    let aligning = Aligning::new(1, AxisMask::new(true, true, true));
    let mut transform = Transform::from_translation(vec3(0, 0, 0));
    let r = resolve_entity(&aligning, &mut transform, Some(2), &globals);
    assert_eq!(r, Ok(()));
    // world - frame translation = (10, 4, 9); inverse shear gives (6, 4, 9).
    assert_eq!(transform.translation, vec3(6, 4, 9));
}

#[test]
fn dangling_target_leaves_transform_and_reports() {
    let globals = WorldTransforms::new();
    let aligning = Aligning::new(7, AxisMask::new(true, true, true));
    let mut transform = Transform::from_translation(vec3(1, 2, 3));
    let r = resolve_entity(&aligning, &mut transform, None, &globals);
    assert_eq!(r, Err(AlignError::MissingTargetTransform(7)));
    assert_eq!(transform.translation, vec3(1, 2, 3));
}

#[test]
fn dangling_parent_leaves_transform_and_reports() {
    let mut globals = WorldTransforms::new();
    globals.insert(1, world_at(4, 5, 6));
    let aligning = Aligning::new(1, AxisMask::new(true, true, true));
    let mut transform = Transform::from_translation(vec3(1, 2, 3));
    let r = resolve_entity(&aligning, &mut transform, Some(9), &globals);
    assert_eq!(r, Err(AlignError::MissingParentTransform(9)));
    assert_eq!(transform.translation, vec3(1, 2, 3));
}

#[test]
fn missing_target_is_reported_before_missing_parent() {
    let globals = WorldTransforms::new();
    let aligning = Aligning::new(7, AxisMask::new(true, true, true));
    let mut transform = Transform::from_translation(vec3(0, 0, 0));
    let r = resolve_entity(&aligning, &mut transform, Some(9), &globals);
    assert_eq!(r, Err(AlignError::MissingTargetTransform(7)));
}

#[test]
fn all_false_mask_changes_nothing_on_success() {
    let mut globals = WorldTransforms::new();
    globals.insert(1, world_at(150, 50, -20));
    let aligning = Aligning::new(1, AxisMask::none());
    let mut transform = Transform::from_translation(vec3(1, 2, 3));
    let r = resolve_entity(&aligning, &mut transform, None, &globals);
    assert_eq!(r, Ok(()));
    assert_eq!(transform.translation, vec3(1, 2, 3));
}

#[test]
fn pass_reports_in_entry_order_and_updates_independently() {
    let mut globals = WorldTransforms::new();
    globals.insert(1, world_at(150, 50, 0));
    let mut entries = vec![
        AlignEntry {
            id: 10,
            aligning: Aligning::new(1, AxisMask::new(true, true, true)),
            transform: Transform::from_translation(vec3(0, 0, 0)),
            parent: None,
        },
        AlignEntry {
            id: 11,
            aligning: Aligning::new(99, AxisMask::new(true, true, true)),
            transform: Transform::from_translation(vec3(7, 8, 9)),
            parent: None,
        },
        AlignEntry {
            id: 12,
            aligning: Aligning::new(1, AxisMask::new(false, false, false)),
            transform: Transform::from_translation(vec3(4, 4, 4)),
            parent: Some(77),
        },
    ];
    let reports = align_entities(&mut entries, &globals);
    assert_eq!(entries[0].transform.translation, vec3(150, 50, 0));
    assert_eq!(entries[1].transform.translation, vec3(7, 8, 9));
    assert_eq!(entries[2].transform.translation, vec3(4, 4, 4));
    assert_eq!(
        reports,
        vec![
            AlignReport { entity: 11, error: AlignError::MissingTargetTransform(99) },
            AlignReport { entity: 12, error: AlignError::MissingParentTransform(77) },
        ]
    );
}

#[test]
fn static_input_gives_same_result_twice() {
    let mut globals = WorldTransforms::new();
    globals.insert(1, world_at(150, 50, 0));
    globals.insert(2, world_at(10, 20, 30));
    let mut entries = vec![AlignEntry {
        id: 10,
        aligning: Aligning::new(1, AxisMask::new(true, false, true)),
        transform: Transform::from_translation(vec3(1, 2, 3)),
        parent: Some(2),
    }];
    let first_reports = align_entities(&mut entries, &globals);
    let after_first = entries.clone();
    let second_reports = align_entities(&mut entries, &globals);
    assert_eq!(entries, after_first);
    assert_eq!(first_reports, second_reports);
}

#[test]
fn self_target_is_a_fixed_point() {
    // The entity's own stored world position is consistent with its frame:
    // world = frame applied to the local translation.
    let frame = world_at(10, 0, 0);
    let local = vec3(3, 4, 5);
    let world = compose_translation(&frame, &local).unwrap();
    assert_eq!(world, vec3(13, 4, 5));
    let mut globals = WorldTransforms::new();
    globals.insert(2, frame);
    globals.insert(10, Affine::from_translation(world).unwrap());
    let aligning = Aligning::new(10, AxisMask::all());
    let mut transform = Transform::from_translation(local);
    let r = resolve_entity(&aligning, &mut transform, Some(2), &globals);
    assert_eq!(r, Ok(()));
    assert_eq!(transform.translation, local);
}

#[test]
fn self_target_fixed_point_without_parent() {
    let local = vec3(-6, 2, 8);
    let mut globals = WorldTransforms::new();
    globals.insert(10, Affine::from_translation(local).unwrap());
    let aligning = Aligning::new(10, AxisMask::all());
    let mut transform = Transform::from_translation(local);
    let r = resolve_entity(&aligning, &mut transform, None, &globals);
    assert_eq!(r, Ok(()));
    assert_eq!(transform.translation, local);
}

#[test]
fn select3_works_on_floats() {
    let mask = AxisMask::new(true, false, true);
    let r = select3(mask, (1.5f32, 2.5f32, 3.5f32), (0.0f32, 0.25f32, 0.75f32));
    assert_eq!(r, (1.5f32, 0.25f32, 3.5f32));
}

#[test]
fn affine_new_rejects_a_pair_that_is_no_inverse() {
    // Doubling is not undone by the identity.
    let linear = Matrix3 { m00: 2, m01: 0, m02: 0, m10: 0, m11: 2, m12: 0, m20: 0, m21: 0, m22: 2 };
    let not_inverse = Matrix3::identity();
    assert!(Affine::new(linear, not_inverse, vec3(0, 0, 0)).is_none());
}

#[test]
fn affine_new_rejects_out_of_bounds_components() {
    assert!(Affine::from_translation(vec3(i64::MAX, 0, 0)).is_none());
    assert!(Affine::new(Matrix3::identity(), Matrix3::identity(), vec3(0, i64::MIN, 0)).is_none());
}

#[test]
fn compose_translation_reports_overflow() {
    let frame = world_at(1, 1, 1);
    assert!(compose_translation(&frame, &vec3(i64::MAX, 0, 0)).is_none());
}

#[test]
fn world_transforms_lookup() {
    let mut globals = WorldTransforms::new();
    assert!(!globals.contains(5));
    assert!(globals.get(5).is_none());
    let a = world_at(1, 2, 3);
    globals.insert(5, a);
    assert!(globals.contains(5));
    assert_eq!(globals.get(5).unwrap().translation, vec3(1, 2, 3));
}

#[test]
fn empty_pass_reports_nothing() {
    let globals = WorldTransforms::new();
    let mut entries: Vec<AlignEntry> = Vec::new();
    let reports = align_entities(&mut entries, &globals);
    assert!(reports.is_empty());
    assert!(entries.is_empty());
}

#[test]
fn frame_bound_is_the_exact_edge() {
    assert!(Affine::from_translation(vec3(FRAME_BOUND, -FRAME_BOUND, 0)).is_some());
    assert!(Affine::from_translation(vec3(FRAME_BOUND + 1, 0, 0)).is_none());
    assert!(Affine::from_translation(vec3(0, -FRAME_BOUND - 1, 0)).is_none());
}

#[test]
fn bundle_and_plugin_construct() {
    let bundle = AligningBundle {
        aligning: Aligning::default(),
        transform: Transform::from_translation(vec3(0, 0, 0)),
        global_transform: Affine::identity(),
    };
    assert_eq!(bundle.aligning.target, NO_ENTITY);
    let plugin = AlignPlugin::default();
    assert_eq!(plugin, AlignPlugin);
}
