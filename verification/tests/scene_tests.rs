use webgpu_scene::scene::{Scene, SceneMaterial, SceneParameter, ShadingType};

#[test]
fn scene_new_is_empty() {
    let scene = Scene::new();
    assert!(scene.objects.is_empty());
    assert!(scene.materials.is_empty());
    assert!(scene.batched_objects.is_empty());
    assert_eq!(scene.parameters, SceneParameter::new());
}

#[test]
fn scene_parameter_defaults() {
    let p = SceneParameter::new();
    assert_eq!(p.scene_shading_type, ShadingType::Differed);
    assert_eq!(p.forward_debug_type, 0);
    assert_eq!(p.differed_debug_type, 0);
    assert!(p.is_use_sky_box);
    assert!(p.is_use_bloom);
    assert!(p.is_use_composite);
    assert!(p.is_use_tone_mapping);
    assert!(p.is_use_gamma_correction);
    assert!(!p.is_use_grid);
    assert!(!p.is_first_update);
    assert!(p.is_convert_y_to_z);
}

#[test]
fn scene_material_default_is_empty() {
    let m = SceneMaterial::default();
    assert!(m._name.is_none());
    assert!(m.base_color_texture.is_empty());
    assert_eq!(m.base_color_texture_size, [0, 0]);
    assert!(m.normal_texture.is_empty());
    assert_eq!(m.normal_texture_size, [0, 0]);
    assert!(m.metallic_roughness_texture.is_empty());
    assert_eq!(m.metallic_roughness_texture_size, [0, 0]);
}

#[test]
fn shading_type_default_is_forward() {
    assert_eq!(ShadingType::default(), ShadingType::Forward);
}
