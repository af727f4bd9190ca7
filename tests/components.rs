use godot_ecs::components::{
    EntityComponents, NodeType, Position2D, Position3D, Rotation2D, Rotation3D, Scale2D, Scale3D,
    ZIndex, ONE_F32_BITS,
};
use godot_ecs::spawn::{add_node, needs_spawn};

#[test]
fn defaults_are_identity_transforms() {
    let p = Position2D::default();
    assert_eq!((f32::from_bits(p.x), f32::from_bits(p.y)), (0.0, 0.0));
    let s = Scale2D::default();
    assert_eq!((f32::from_bits(s.x), f32::from_bits(s.y)), (1.0, 1.0));
    assert_eq!(f64::from_bits(Rotation2D::default().0), 0.0);
    let z = ZIndex::default();
    assert_eq!(z.value, 0);
    assert!(!z.is_relative);
    let p3 = Position3D::default();
    assert_eq!((p3.x, p3.y, p3.z), (0, 0, 0));
    let s3 = Scale3D::default();
    assert_eq!(f32::from_bits(s3.x), 1.0);
    assert_eq!(f32::from_bits(s3.y), 1.0);
    assert_eq!(f32::from_bits(s3.z), 1.0);
    let r3 = Rotation3D::default();
    assert_eq!((r3.x, r3.y, r3.z), (0, 0, 0));
    assert_eq!(ONE_F32_BITS, 1.0f32.to_bits());
}

#[test]
fn spawn_filter_needs_template_and_no_handle() {
    let pending = EntityComponents { has_template: true, has_node_2d: false, has_node_spatial: false };
    assert!(needs_spawn(&pending));
    let no_template = EntityComponents { has_template: false, ..pending };
    assert!(!needs_spawn(&no_template));
    let flat = EntityComponents { has_node_2d: true, ..pending };
    assert!(!needs_spawn(&flat));
    let volumetric = EntityComponents { has_node_spatial: true, ..pending };
    assert!(!needs_spawn(&volumetric));
}

#[test]
fn added_handle_is_single_and_stops_spawning() {
    let pending = EntityComponents { has_template: true, has_node_2d: false, has_node_spatial: false };
    let flat = add_node(pending, NodeType::Node2D);
    assert!(flat.has_node_2d && !flat.has_node_spatial && flat.has_template);
    assert!(!needs_spawn(&flat));
    let volumetric = add_node(pending, NodeType::Spatial);
    assert!(volumetric.has_node_spatial && !volumetric.has_node_2d);
    assert!(!needs_spawn(&volumetric));
}
