use vstd::prelude::*;

verus! {

/// How the main pass of a frame is shaded.
#[derive(Clone, Copy, Debug, PartialEq, Eq, Structural)]
pub enum ShadingType {
    Forward,
    Differed,
}

impl Default for ShadingType {
    fn default() -> (s: Self)
        ensures
            s == ShadingType::Forward,
    {
        ShadingType::Forward
    }
}

/// The index topology of a mesh: how many vertices it has, the triangle
/// indices into them, and the material it is drawn with. The vertex
/// attributes themselves are floating point data and live with the renderer.
#[derive(Clone, Debug)]
pub struct Mesh {
    pub vertex_count: usize,
    pub indices: Vec<u32>,
    pub material: Option<u32>,
}

/// An object of the scene graph.
#[derive(Clone, Debug)]
pub struct SceneObject {
    pub _name: Option<String>,
    pub index: u32,
    pub parent_index: Option<u32>,
    pub child_index: Vec<u32>,
    pub source_mesh: Option<Mesh>,
    pub _shading_type: u8,
}

/// A material: three RGBA8 textures with their sizes.
#[derive(Clone, Debug)]
pub struct SceneMaterial {
    pub _name: Option<String>,
    pub base_color_texture: Vec<u8>,
    pub base_color_texture_size: [u32; 2],
    pub normal_texture: Vec<u8>,
    pub normal_texture_size: [u32; 2],
    pub metallic_roughness_texture: Vec<u8>,
    pub metallic_roughness_texture_size: [u32; 2],
}

impl Default for SceneMaterial {
    fn default() -> (m: Self)
        ensures
            m._name is None,
            m.base_color_texture@.len() == 0,
            m.base_color_texture_size@ == seq![0u32, 0u32],
            m.normal_texture@.len() == 0,
            m.normal_texture_size@ == seq![0u32, 0u32],
            m.metallic_roughness_texture@.len() == 0,
            m.metallic_roughness_texture_size@ == seq![0u32, 0u32],
    {
        SceneMaterial {
            _name: None,
            base_color_texture: Vec::new(),
            base_color_texture_size: [0, 0],
            normal_texture: Vec::new(),
            normal_texture_size: [0, 0],
            metallic_roughness_texture: Vec::new(),
            metallic_roughness_texture_size: [0, 0],
        }
    }
}

/// The rendering switches of a scene: which shading path is used, which
/// debug output is shown, and which passes are enabled. The camera and
/// lighting values are floating point data and live with the renderer.
#[derive(Clone, Copy, Debug, PartialEq, Eq, Structural)]
pub struct SceneParameter {
    pub scene_shading_type: ShadingType,
    pub forward_debug_type: u8,
    pub differed_debug_type: u8,
    pub is_use_sky_box: bool,
    pub is_use_bloom: bool,
    pub is_use_composite: bool,
    pub is_use_tone_mapping: bool,
    pub is_use_gamma_correction: bool,
    pub is_use_grid: bool,
    pub is_first_update: bool,
    pub is_convert_y_to_z: bool,
}

/// The settings a new scene starts with.
pub open spec fn initial_parameters() -> SceneParameter {
    SceneParameter {
        scene_shading_type: ShadingType::Differed,
        forward_debug_type: 0,
        differed_debug_type: 0,
        is_use_sky_box: true,
        is_use_bloom: true,
        is_use_composite: true,
        is_use_tone_mapping: true,
        is_use_gamma_correction: true,
        is_use_grid: false,
        is_first_update: false,
        is_convert_y_to_z: true,
    }
}

impl SceneParameter {
    pub fn new() -> (p: Self)
        ensures
            p == initial_parameters(),
    {
        SceneParameter {
            scene_shading_type: ShadingType::Differed,
            forward_debug_type: 0,
            differed_debug_type: 0,
            is_use_sky_box: true,
            is_use_bloom: true,
            is_use_composite: true,
            is_use_tone_mapping: true,
            is_use_gamma_correction: true,
            is_use_grid: false,
            is_first_update: false,
            is_convert_y_to_z: true,
        }
    }
}

/// The scene world: its objects, materials, the objects batched by material,
/// and the rendering switches.
#[derive(Clone, Debug)]
pub struct Scene {
    pub objects: Vec<SceneObject>,
    pub materials: Vec<SceneMaterial>,
    pub batched_objects: Vec<SceneObject>,
    pub parameters: SceneParameter,
}

impl Scene {
    pub fn new() -> (s: Self)
        ensures
            s.objects@.len() == 0,
            s.materials@.len() == 0,
            s.batched_objects@.len() == 0,
            s.parameters == initial_parameters(),
    {
        Scene {
            objects: Vec::new(),
            materials: Vec::new(),
            batched_objects: Vec::new(),
            parameters: SceneParameter::new(),
        }
    }
}

} // verus!
