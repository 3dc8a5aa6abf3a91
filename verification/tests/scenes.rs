use bevy::transform::components::Transform;
use bevy_full_asset_path::scene::{
    children_to_rotate, extension, is_scene_extension, needs_fix, SceneChild,
};

fn child(entity: u64, has_transform: bool) -> SceneChild {
    SceneChild { entity, has_transform }
}

fn family() -> Vec<SceneChild> {
    vec![child(7, true), child(3, false), child(9, true), child(7, true)]
}

#[test]
fn extension_follows_the_last_dot() {
    assert_eq!(extension("models/fox.glb"), Some(String::from("glb")));
    assert_eq!(extension("fox.tar.gz"), Some(String::from("gz")));
    assert_eq!(extension("fox."), Some(String::from("")));
    assert_eq!(extension(".glb"), Some(String::from("glb")));
    assert_eq!(extension("modèles/été.gltf"), Some(String::from("gltf")));
}

#[test]
fn extension_is_sought_in_the_last_component_only() {
    assert_eq!(extension("models.glb/fox"), None);
    assert_eq!(extension("models/fox"), None);
    assert_eq!(extension("fox.glb/"), None);
    assert_eq!(extension(""), None);
}

#[test]
fn scene_extensions_are_glb_and_gltf() {
    assert!(is_scene_extension("glb"));
    assert!(is_scene_extension("gltf"));
    assert!(!is_scene_extension("GLB"));
    assert!(!is_scene_extension("Gltf"));
    assert!(!is_scene_extension("png"));
    assert!(!is_scene_extension("gl"));
    assert!(!is_scene_extension("glbx"));
    assert!(!is_scene_extension(""));
}

#[test]
fn fix_is_needed_for_scene_assets_only() {
    assert!(needs_fix(false, Some("models/fox.glb")));
    assert!(needs_fix(false, Some("fox.gltf")));
    assert!(!needs_fix(false, Some("fox.GLB")));
    assert!(!needs_fix(false, Some("fox.png")));
    assert!(!needs_fix(false, Some("fox")));
    assert!(!needs_fix(false, None));
    assert!(!needs_fix(true, Some("models/fox.glb")));
    assert!(!needs_fix(true, None));
}

#[test]
fn children_with_a_transform_are_rotated() {
    assert_eq!(children_to_rotate(false, Some("models/fox.glb"), &family()), vec![7, 9, 7]);
    assert_eq!(children_to_rotate(false, Some("fox.gltf"), &family()), vec![7, 9, 7]);
    assert_eq!(children_to_rotate(false, Some("fox.glb"), &Vec::new()), Vec::<u64>::new());
}

#[test]
fn opted_out_scene_is_left_alone() {
    assert_eq!(children_to_rotate(true, Some("models/fox.glb"), &family()), Vec::<u64>::new());
    assert_eq!(children_to_rotate(true, Some("fox.png"), &family()), Vec::<u64>::new());
    assert_eq!(children_to_rotate(true, None, &family()), Vec::<u64>::new());
}

#[test]
fn other_extension_is_left_alone() {
    assert_eq!(children_to_rotate(false, Some("bird/icon.png"), &family()), Vec::<u64>::new());
    assert_eq!(children_to_rotate(false, Some("fox.glb.bak"), &family()), Vec::<u64>::new());
    assert_eq!(children_to_rotate(false, Some("fox"), &family()), Vec::<u64>::new());
}

#[test]
fn scene_without_asset_path_is_left_alone() {
    assert_eq!(children_to_rotate(false, None, &family()), Vec::<u64>::new());
}

fn turn(transforms: &mut [Transform], rotated: &[u64]) {
    for entity in rotated {
        transforms[*entity as usize].rotate_y(std::f32::consts::PI);
    }
}

#[test]
fn second_notification_rotates_again() {
    let children = vec![child(0, true), child(1, false), child(2, true)];
    let start = Transform::from_xyz(1.0, 2.0, 3.0).looking_at(bevy::math::Vec3::X, bevy::math::Vec3::Y);
    let mut transforms = vec![start; 3];

    let first = children_to_rotate(false, Some("fox.glb"), &children);
    assert_eq!(first, vec![0, 2]);
    turn(&mut transforms, &first);
    for i in [0usize, 2] {
        let forward = transforms[i].rotation * bevy::math::Vec3::X;
        let before = start.rotation * bevy::math::Vec3::X;
        assert!((forward + before).length() < 1e-5);
        assert_eq!(transforms[i].translation, start.translation);
        assert_eq!(transforms[i].scale, start.scale);
    }
    assert_eq!(transforms[1], start);

    let second = children_to_rotate(false, Some("fox.glb"), &children);
    assert_eq!(second, first);
    turn(&mut transforms, &second);
    for i in [0usize, 2] {
        let forward = transforms[i].rotation * bevy::math::Vec3::X;
        let before = start.rotation * bevy::math::Vec3::X;
        assert!((forward - before).length() < 1e-5);
        assert!(transforms[i].rotation.dot(start.rotation).abs() > 0.99999);
    }
    assert_eq!(transforms[1], start);
}
