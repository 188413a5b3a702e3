use webgpu_scene::render::{
    bloom_pyramid, differed_pipeline, is_need_initialize, plan_bloom_pass,
    plan_mesh_rendering_resource, plan_rendering_main, shader_kind_for_name,
    sky_conversion_dispatch, texture_copy_layout, BloomStage, BloomTexture, DifferedPipeline,
    FramePass, ShaderKind,
};
use webgpu_scene::scene::{Mesh, SceneMaterial, SceneParameter, ShadingType};

#[test]
fn frame_of_default_parameters() {
    let p = SceneParameter::new();
    assert_eq!(
        plan_rendering_main(&p),
        vec![
            FramePass::DifferedShading,
            FramePass::Bloom,
            FramePass::CopyBloomResult,
            FramePass::Composite,
            FramePass::LineGrid
        ]
    );
}

#[test]
fn frame_without_post_processing() {
    let mut p = SceneParameter::new();
    p.scene_shading_type = ShadingType::Forward;
    p.is_use_bloom = false;
    p.is_use_composite = false;
    assert_eq!(plan_rendering_main(&p), vec![FramePass::ForwardShading, FramePass::LineGrid]);
    p.is_use_composite = true;
    assert_eq!(
        plan_rendering_main(&p),
        vec![FramePass::ForwardShading, FramePass::Composite, FramePass::LineGrid]
    );
}

#[test]
fn shader_names() {
    assert_eq!(shader_kind_for_name("Phong"), ShaderKind::Phong);
    assert_eq!(shader_kind_for_name("DifferedGBuffer"), ShaderKind::DifferedGBuffer);
    assert_eq!(shader_kind_for_name("phong"), ShaderKind::DifferedGBuffer);
    assert_eq!(shader_kind_for_name(""), ShaderKind::DifferedGBuffer);
}

#[test]
fn differed_pipelines() {
    assert_eq!(differed_pipeline(0), DifferedPipeline::Render);
    assert_eq!(differed_pipeline(1), DifferedPipeline::Debug);
    assert_eq!(differed_pipeline(4), DifferedPipeline::Debug);
}

#[test]
fn initialization_decision() {
    assert!(!is_need_initialize(Some(256), true, true, 256));
    assert!(is_need_initialize(None, true, true, 256));
    assert!(is_need_initialize(Some(256), false, true, 256));
    assert!(is_need_initialize(Some(256), true, false, 256));
    assert!(is_need_initialize(Some(240), true, true, 256));
}

#[test]
fn pyramid_of_full_hd() {
    assert_eq!(
        bloom_pyramid(1920, 1080),
        vec![(1920, 1080), (960, 540), (480, 270), (240, 135), (120, 67), (60, 33)]
    );
}

#[test]
fn pyramid_limits() {
    assert!(bloom_pyramid(16, 1000).is_empty());
    assert!(bloom_pyramid(0, 0).is_empty());
    assert_eq!(bloom_pyramid(17, 17), vec![(17, 17)]);
    assert_eq!(bloom_pyramid(128, 128), vec![(128, 128), (64, 64), (32, 32)]);
    assert_eq!(bloom_pyramid(100, 40), vec![(100, 40), (50, 20)]);
    assert_eq!(
        bloom_pyramid(65535, 65535),
        vec![
            (65535, 65535),
            (32767, 32767),
            (16383, 16383),
            (8191, 8191),
            (4095, 4095),
            (2047, 2047)
        ]
    );
    assert_eq!(bloom_pyramid(u32::MAX, u32::MAX).len(), 6);
    for levels in [bloom_pyramid(1920, 1080), bloom_pyramid(u32::MAX, 4096)] {
        for w in levels.windows(2) {
            assert!(w[1].0 < w[0].0 && w[1].1 < w[0].1);
        }
    }
}

#[test]
fn bloom_plan_of_three_levels() {
    let steps = plan_bloom_pass(3);
    assert_eq!(steps.len(), 8);
    assert_eq!(steps[0].stage, BloomStage::Extraction);
    assert_eq!(steps[0].source, BloomTexture::Intermediate);
    assert_eq!(steps[1].source, BloomTexture::Intermediate2);
    assert_eq!(steps[1].target, BloomTexture::Sampling(0));
    assert_eq!(steps[3].source, BloomTexture::Sampling(1));
    assert_eq!(steps[3].target, BloomTexture::Sampling(2));
    assert_eq!(steps[4].stage, BloomStage::UpSampling);
    assert_eq!(steps[4].source, BloomTexture::Sampling(2));
    assert_eq!(steps[4].target, BloomTexture::Sampling(1));
    assert!(!steps[4].clear);
    assert_eq!(steps[6].source, BloomTexture::Sampling(0));
    assert_eq!(steps[6].target, BloomTexture::Bloom);
    assert!(steps[6].clear);
    assert_eq!(steps[7].stage, BloomStage::Resolve);
    assert_eq!(steps[7].target, BloomTexture::Intermediate2);
    for i in 0..steps.len() - 1 {
        assert_eq!(steps[i].target, steps[i + 1].source);
    }
}

#[test]
fn bloom_plan_without_levels() {
    let steps = plan_bloom_pass(0);
    assert_eq!(steps.len(), 2);
    assert_eq!(steps[0].stage, BloomStage::Extraction);
    assert_eq!(steps[1].stage, BloomStage::Resolve);
    assert_ne!(steps[0].target, steps[1].source);
}

#[test]
fn index_bytes_of_large_indices() {
    let materials = vec![SceneMaterial::default()];
    let mesh = Mesh { vertex_count: 0, indices: vec![1, 258, 0x01020304], material: Some(0) };
    let plan = plan_mesh_rendering_resource(&mesh, &materials);
    let le: Vec<u8> = vec![1, 0, 0, 0, 2, 1, 0, 0, 4, 3, 2, 1];
    let be: Vec<u8> = vec![0, 0, 0, 1, 0, 0, 1, 2, 1, 2, 3, 4];
    assert!(plan.index_bytes == le || plan.index_bytes == be);
    let native: Vec<u8> = mesh.indices.iter().flat_map(|i| i.to_ne_bytes()).collect();
    assert_eq!(plan.index_bytes, native);
    assert_eq!(plan.index_count, 3);
}

#[test]
fn sky_dispatch() {
    assert_eq!(sky_conversion_dispatch(512), [32, 32, 6]);
    assert_eq!(sky_conversion_dispatch(500), [32, 32, 6]);
    assert_eq!(sky_conversion_dispatch(1), [1, 1, 6]);
}

#[test]
fn mesh_resource_plan() {
    let mut material = SceneMaterial::default();
    material.base_color_texture_size = [256, 128];
    material.normal_texture_size = [64, 64];
    material.metallic_roughness_texture_size = [1, 2];
    let materials = vec![SceneMaterial::default(), material];
    let mesh = Mesh { vertex_count: 4, indices: vec![0, 1, 2, 2, 3, 0], material: Some(1) };
    let plan = plan_mesh_rendering_resource(&mesh, &materials);
    assert_eq!(plan.index_count, 6);
    let expected: Vec<u8> = mesh.indices.iter().flat_map(|i| i.to_ne_bytes()).collect();
    assert_eq!(plan.index_bytes, expected);
    assert_eq!(plan.index_bytes.len(), 24);
    assert_eq!(plan.material, Some(1));
    let base_color = plan.base_color.unwrap();
    assert_eq!(base_color.bytes_per_row, 1024);
    assert_eq!(base_color.rows_per_image, 128);
    assert_eq!(plan.normal, Some(texture_copy_layout([64, 64])));
    let metallic_roughness = plan.metallic_roughness.unwrap();
    assert_eq!(metallic_roughness.bytes_per_row, 4);
    assert_eq!(metallic_roughness.height, 2);
}

#[test]
fn mesh_without_material_gets_no_textures() {
    let materials: Vec<SceneMaterial> = Vec::new();
    let mesh = Mesh { vertex_count: 3, indices: vec![0, 1, 2], material: None };
    let plan = plan_mesh_rendering_resource(&mesh, &materials);
    assert_eq!(plan.index_count, 3);
    assert_eq!(plan.index_bytes.len(), 12);
    assert_eq!(plan.material, None);
    assert_eq!(plan.base_color, None);
    assert_eq!(plan.normal, None);
    assert_eq!(plan.metallic_roughness, None);
}

#[test]
fn bloom_resolve_adds_to_the_scene() {
    let steps = plan_bloom_pass(2);
    let last = steps[steps.len() - 1];
    assert_eq!(last.stage, BloomStage::Resolve);
    assert_eq!(last.source, BloomTexture::Bloom);
    assert_eq!(last.added_to, Some(BloomTexture::Intermediate));
    assert!(steps[..steps.len() - 1].iter().all(|s| s.added_to.is_none()));
}
