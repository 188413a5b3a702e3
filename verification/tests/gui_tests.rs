use webgpu_scene::gui::{create_frontend_gui, handle_gui_event, GuiEvent};
use webgpu_scene::scene::{Scene, SceneMaterial, SceneParameter, ShadingType};

#[test]
fn dialog_of_new_scene() {
    let mut scene = Scene::new();
    scene.materials.push(SceneMaterial::default());
    scene.materials.push(SceneMaterial::default());
    let d = create_frontend_gui(&scene, [0, 0, 0]);
    assert_eq!(d.render_type, ShadingType::Differed);
    assert_eq!(d.forward_wrapper_class, "widget-wrapper-hidden");
    assert_eq!(d.differed_wrapper_class, "widget-wrapper");
    assert_eq!(d.background_color, "#000");
    assert!(d.is_use_sky_box && d.is_use_bloom && d.is_use_composite);
    assert!(d.is_use_tone_mapping && d.is_use_gamma_correction);
    assert_eq!(d.objects_text, "0");
    assert_eq!(d.materials_text, "2");
}

#[test]
fn dialog_of_forward_scene() {
    let mut scene = Scene::new();
    scene.parameters.scene_shading_type = ShadingType::Forward;
    scene.parameters.is_use_bloom = false;
    let d = create_frontend_gui(&scene, [255, 128, 7]);
    assert_eq!(d.forward_wrapper_class, "widget-wrapper");
    assert_eq!(d.differed_wrapper_class, "widget-wrapper-hidden");
    assert_eq!(d.background_color, "#FF807");
    assert!(!d.is_use_bloom);
}

#[test]
fn render_type_switch() {
    let mut p = SceneParameter::new();
    let c = handle_gui_event(&mut p, &GuiEvent::RenderType("forward".to_string())).unwrap();
    assert_eq!(p.scene_shading_type, ShadingType::Forward);
    assert_eq!(c.forward, "widget-wrapper");
    assert_eq!(c.differed, "widget-wrapper widget-wrapper-hidden");
    let c = handle_gui_event(&mut p, &GuiEvent::RenderType("differed".to_string())).unwrap();
    assert_eq!(p.scene_shading_type, ShadingType::Differed);
    assert_eq!(c.forward, "widget-wrapper widget-wrapper-hidden");
    assert_eq!(c.differed, "widget-wrapper");
    let before = p;
    assert!(handle_gui_event(&mut p, &GuiEvent::RenderType("Forward".to_string())).is_none());
    assert_eq!(p, before);
}

#[test]
fn debug_buffer_values() {
    let mut p = SceneParameter::new();
    for (value, expected) in [("normal", 1u8), ("depth", 2), ("albedo", 3), ("metallic", 4), ("render", 0), ("other", 0)] {
        assert!(handle_gui_event(&mut p, &GuiEvent::DebugBuffer(value.to_string())).is_none());
        assert_eq!(p.differed_debug_type, expected, "{}", value);
    }
}

#[test]
fn forward_display_values() {
    let mut p = SceneParameter::new();
    handle_gui_event(&mut p, &GuiEvent::ForwardDisplay("normal".to_string()));
    assert_eq!(p.forward_debug_type, 1);
    handle_gui_event(&mut p, &GuiEvent::ForwardDisplay("rendering".to_string()));
    assert_eq!(p.forward_debug_type, 0);
    handle_gui_event(&mut p, &GuiEvent::ForwardDisplay("normal".to_string()));
    handle_gui_event(&mut p, &GuiEvent::ForwardDisplay("render".to_string()));
    assert_eq!(p.forward_debug_type, 0);
}

#[test]
fn switches_round_trip_through_the_dialog() {
    let mut scene = Scene::new();
    handle_gui_event(&mut scene.parameters, &GuiEvent::SkyBox(false));
    handle_gui_event(&mut scene.parameters, &GuiEvent::Bloom(false));
    handle_gui_event(&mut scene.parameters, &GuiEvent::Composite(false));
    handle_gui_event(&mut scene.parameters, &GuiEvent::ToneMapping(false));
    handle_gui_event(&mut scene.parameters, &GuiEvent::GammaCorrection(false));
    let d = create_frontend_gui(&scene, [1, 2, 3]);
    assert!(!d.is_use_sky_box && !d.is_use_bloom && !d.is_use_composite);
    assert!(!d.is_use_tone_mapping && !d.is_use_gamma_correction);
    assert_eq!(scene.parameters.scene_shading_type, ShadingType::Differed);
    handle_gui_event(&mut scene.parameters, &GuiEvent::Bloom(true));
    assert!(create_frontend_gui(&scene, [1, 2, 3]).is_use_bloom);
}
