use webgpu_scene::batch::{batch_objects, batches_fit, plan_mesh_batches};
use webgpu_scene::scene::{Mesh, Scene, SceneObject};

fn object(index: u32, mesh: Option<Mesh>) -> SceneObject {
    SceneObject {
        _name: None,
        index,
        parent_index: None,
        child_index: Vec::new(),
        source_mesh: mesh,
        _shading_type: 0,
    }
}

fn mesh(vertex_count: usize, indices: Vec<u32>, material: Option<u32>) -> Option<Mesh> {
    Some(Mesh { vertex_count, indices, material })
}

fn sample_objects() -> Vec<SceneObject> {
    vec![
        object(0, mesh(3, vec![0, 1, 2], Some(1))),
        object(1, None),
        object(2, mesh(2, vec![0, 1, 1], Some(2))),
        object(3, mesh(4, vec![3, 0], Some(1))),
        object(4, mesh(5, vec![4], None)),
    ]
}

#[test]
fn batches_group_by_material_in_first_appearance_order() {
    let objects = sample_objects();
    assert!(batches_fit(&objects));
    let batches = plan_mesh_batches(&objects);
    assert_eq!(batches.len(), 2);
    assert_eq!(batches[0].material, 1);
    assert_eq!(batches[0].members, vec![0, 3]);
    assert_eq!(batches[0].vertex_count, 7);
    assert_eq!(batches[0].indices, vec![0, 1, 2, 6, 3]);
    assert_eq!(batches[1].material, 2);
    assert_eq!(batches[1].members, vec![2]);
    assert_eq!(batches[1].vertex_count, 2);
    assert_eq!(batches[1].indices, vec![0, 1, 1]);
}

#[test]
fn batched_indices_stay_within_batch() {
    let objects = sample_objects();
    for batch in plan_mesh_batches(&objects) {
        for index in &batch.indices {
            assert!((*index as usize) < batch.vertex_count);
        }
    }
}

#[test]
fn batches_have_distinct_materials() {
    let objects = vec![
        object(0, mesh(1, vec![0], Some(7))),
        object(1, mesh(1, vec![0], Some(7))),
        object(2, mesh(1, vec![0], Some(7))),
    ];
    let batches = plan_mesh_batches(&objects);
    assert_eq!(batches.len(), 1);
    assert_eq!(batches[0].members, vec![0, 1, 2]);
    assert_eq!(batches[0].indices, vec![0, 1, 2]);
}

#[test]
fn no_meshes_no_batches() {
    let objects = vec![object(0, None), object(1, mesh(3, vec![0], None))];
    assert!(plan_mesh_batches(&objects).is_empty());
    assert!(plan_mesh_batches(&Vec::new()).is_empty());
}

#[test]
fn batch_objects_replaces_batched_objects() {
    let mut scene = Scene::new();
    scene.objects = sample_objects();
    scene.batched_objects.push(object(99, None));
    let batches = batch_objects(&mut scene);
    assert_eq!(batches.len(), 2);
    assert_eq!(scene.objects.len(), 5);
    assert_eq!(scene.batched_objects.len(), 2);
    let first = &scene.batched_objects[0];
    assert_eq!(first._name.as_deref(), Some("batched"));
    assert_eq!(first._shading_type, 44);
    assert_eq!(first.index, 1);
    assert!(first.parent_index.is_none());
    assert!(first.child_index.is_empty());
    let m = first.source_mesh.as_ref().unwrap();
    assert_eq!(m.vertex_count, 7);
    assert_eq!(m.indices, vec![0, 1, 2, 6, 3]);
    assert_eq!(m.material, Some(1));
    assert_eq!(scene.batched_objects[1].index, 2);
}

#[test]
fn batches_fit_rejects_vertex_count_overflow() {
    let objects = vec![
        object(0, mesh(usize::MAX, vec![0], Some(1))),
        object(1, mesh(1, vec![], Some(1))),
    ];
    assert!(!batches_fit(&objects));
    let other_material = vec![
        object(0, mesh(usize::MAX, vec![0], Some(1))),
        object(1, mesh(1, vec![0], Some(2))),
    ];
    assert!(batches_fit(&other_material));
}

#[test]
fn offsets_beyond_u32_wrap_like_a_cast() {
    let big = u32::MAX as usize;
    let objects = vec![
        object(0, mesh(big, vec![0], Some(1))),
        object(1, mesh(1, vec![0], Some(1))),
        object(2, mesh(1, vec![0], Some(1))),
    ];
    assert!(batches_fit(&objects));
    let batches = plan_mesh_batches(&objects);
    assert_eq!(batches[0].vertex_count, big + 2);
    assert_eq!(batches[0].indices, vec![0, u32::MAX, 0]);
}

#[test]
fn batches_fit_rejects_index_overflow() {
    let objects = vec![
        object(0, mesh(10, vec![0], Some(1))),
        object(1, mesh(1, vec![u32::MAX - 5], Some(1))),
    ];
    assert!(!batches_fit(&objects));
    let first_alone = vec![object(0, mesh(1, vec![u32::MAX], Some(1)))];
    assert!(batches_fit(&first_alone));
}
