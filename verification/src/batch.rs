use vstd::prelude::*;
use std::collections::HashMap;
use crate::scene::{Mesh, Scene, SceneObject};

verus! {

broadcast use vstd::std_specs::hash::group_hash_axioms;

// Model -------------------------------------------------------------------------------------

/// The material of an object's mesh, if it has a mesh and the mesh has one.
pub open spec fn object_material(o: SceneObject) -> Option<u32> {
    match o.source_mesh {
        Some(mesh) => mesh.material,
        None => None,
    }
}

/// The number of vertices of an object's mesh (zero without a mesh).
pub open spec fn object_vertex_count(o: SceneObject) -> nat {
    match o.source_mesh {
        Some(mesh) => mesh.vertex_count as nat,
        None => 0,
    }
}

/// The triangle indices of an object's mesh (none without a mesh).
pub open spec fn object_indices(o: SceneObject) -> Seq<u32> {
    match o.source_mesh {
        Some(mesh) => mesh.indices@,
        None => Seq::empty(),
    }
}

/// The materials that the objects' meshes use, each once, in the order in
/// which they first appear.
pub open spec fn batch_materials(objs: Seq<SceneObject>) -> Seq<u32>
    decreases objs.len(),
{
    if objs.len() == 0 {
        Seq::empty()
    } else {
        let prev = batch_materials(objs.drop_last());
        match object_material(objs.last()) {
            Some(m) => if prev.contains(m) {
                prev
            } else {
                prev.push(m)
            },
            None => prev,
        }
    }
}

/// The positions, in increasing order, of the objects whose mesh uses material `m`.
pub open spec fn batch_members(objs: Seq<SceneObject>, m: u32) -> Seq<usize>
    decreases objs.len(),
{
    if objs.len() == 0 {
        Seq::empty()
    } else {
        let prev = batch_members(objs.drop_last(), m);
        if object_material(objs.last()) == Some(m) {
            prev.push((objs.len() - 1) as usize)
        } else {
            prev
        }
    }
}

/// The total number of vertices of the meshes that use material `m`.
pub open spec fn batch_vertex_count(objs: Seq<SceneObject>, m: u32) -> nat
    decreases objs.len(),
{
    if objs.len() == 0 {
        0
    } else {
        let prev = batch_vertex_count(objs.drop_last(), m);
        if object_material(objs.last()) == Some(m) {
            prev + object_vertex_count(objs.last())
        } else {
            prev
        }
    }
}

/// The offset that a mesh's indices are shifted by in its batch: the number
/// of vertices of the meshes before it in the batch, cast to `u32`.
pub open spec fn batch_offset(objs: Seq<SceneObject>, m: u32) -> u32 {
    batch_vertex_count(objs, m) as u32
}

/// The indices of the meshes that use material `m`, one mesh after the other,
/// each shifted by its offset, so that they point into the concatenation of
/// the meshes' vertices.
pub open spec fn batch_indices(objs: Seq<SceneObject>, m: u32) -> Seq<u32>
    decreases objs.len(),
{
    if objs.len() == 0 {
        Seq::empty()
    } else {
        let prev = batch_indices(objs.drop_last(), m);
        if object_material(objs.last()) == Some(m) {
            let offset = batch_offset(objs.drop_last(), m);
            prev + object_indices(objs.last()).map_values(|i: u32| (i + offset) as u32)
        } else {
            prev
        }
    }
}

/// Every batch's vertex count fits a `usize`, and no shifted index overflows
/// the `u32` index format.
pub open spec fn batch_fits(objs: Seq<SceneObject>) -> bool
    decreases objs.len(),
{
    if objs.len() == 0 {
        true
    } else {
        &&& batch_fits(objs.drop_last())
        &&& match object_material(objs.last()) {
            Some(m) => {
                &&& batch_vertex_count(objs, m) <= usize::MAX
                &&& forall|j: int|
                    0 <= j < object_indices(objs.last()).len() ==> object_indices(objs.last())[j]
                        + batch_offset(objs.drop_last(), m) <= u32::MAX
            },
            None => true,
        }
    }
}

/// The meshes of the objects that share a material, merged into one.
#[derive(Clone, Debug)]
pub struct MeshBatch {
    pub material: u32,
    /// Positions of the merged objects, in the order their vertices are concatenated.
    pub members: Vec<usize>,
    pub vertex_count: usize,
    pub indices: Vec<u32>,
}

/// `b` is the batch of material `m` over the objects `objs`.
pub open spec fn is_batch_of(b: MeshBatch, objs: Seq<SceneObject>, m: u32) -> bool {
    &&& b.material == m
    &&& b.members@ == batch_members(objs, m)
    &&& b.vertex_count == batch_vertex_count(objs, m)
    &&& b.indices@ == batch_indices(objs, m)
}

/// `batches` holds, in order, the batch of each material of `objs`.
pub open spec fn are_batches_of(batches: Seq<MeshBatch>, objs: Seq<SceneObject>) -> bool {
    &&& batches.len() == batch_materials(objs).len()
    &&& forall|i: int|
        0 <= i < batches.len() ==> is_batch_of(#[trigger] batches[i], objs, batch_materials(objs)[i])
}

// Lemmas ------------------------------------------------------------------------------------

proof fn lemma_materials_grow(objs: Seq<SceneObject>)
    requires
        objs.len() > 0,
    ensures
        batch_materials(objs.drop_last()).is_prefix_of(batch_materials(objs)),
        forall|m: u32|
            batch_materials(objs.drop_last()).contains(m) ==> #[trigger] batch_materials(
                objs,
            ).contains(m),
{
    let prev = batch_materials(objs.drop_last());
    let cur = batch_materials(objs);
    assert forall|m: u32| prev.contains(m) implies #[trigger] cur.contains(m) by {
        let i = choose|i: int| 0 <= i < prev.len() && prev[i] == m;
        assert(cur[i] == m);
    }
}

proof fn lemma_fits_prefix(objs: Seq<SceneObject>, k: int)
    requires
        batch_fits(objs),
        0 <= k <= objs.len(),
    ensures
        batch_fits(objs.take(k)),
    decreases objs.len(),
{
    if k == objs.len() {
        assert(objs.take(k) =~= objs);
    } else {
        assert(objs.drop_last().take(k) =~= objs.take(k));
        lemma_fits_prefix(objs.drop_last(), k);
    }
}

proof fn lemma_absent_material(objs: Seq<SceneObject>, m: u32)
    requires
        !batch_materials(objs).contains(m),
    ensures
        batch_members(objs, m) =~= Seq::<usize>::empty(),
        batch_vertex_count(objs, m) == 0,
        batch_indices(objs, m) =~= Seq::<u32>::empty(),
    decreases objs.len(),
{
    if objs.len() > 0 {
        lemma_materials_grow(objs);
        let prev = batch_materials(objs.drop_last());
        if object_material(objs.last()) == Some(m) {
            if !prev.contains(m) {
                assert(batch_materials(objs)[prev.len() as int] == m);
            }
        }
        lemma_absent_material(objs.drop_last(), m);
    }
}

/// No material is batched twice.
pub proof fn lemma_batch_materials_distinct(objs: Seq<SceneObject>)
    ensures
        batch_materials(objs).no_duplicates(),
    decreases objs.len(),
{
    if objs.len() > 0 {
        lemma_batch_materials_distinct(objs.drop_last());
    }
}

/// A material is batched exactly when some object's mesh uses it.
pub proof fn lemma_batch_materials_complete(objs: Seq<SceneObject>, m: u32)
    ensures
        batch_materials(objs).contains(m) <==> exists|k: int|
            0 <= k < objs.len() && object_material(#[trigger] objs[k]) == Some(m),
    decreases objs.len(),
{
    if objs.len() > 0 {
        let prev = objs.drop_last();
        lemma_batch_materials_complete(prev, m);
        lemma_materials_grow(objs);
        if batch_materials(objs).contains(m) {
            if !batch_materials(prev).contains(m) {
                let last = objs.len() - 1;
                assert(object_material(objs[last]) == Some(m));
            }
        }
        if exists|k: int| 0 <= k < objs.len() && object_material(#[trigger] objs[k]) == Some(m) {
            let k = choose|k: int| 0 <= k < objs.len() && object_material(#[trigger] objs[k]) == Some(m);
            if k < objs.len() - 1 {
                assert(prev[k] == objs[k]);
            } else {
                let p = batch_materials(prev);
                if !p.contains(m) {
                    assert(batch_materials(objs)[p.len() as int] == m);
                }
            }
        }
    }
}

/// The members of a batch are exactly the objects whose mesh uses its
/// material, in increasing order.
pub proof fn lemma_batch_members_exact(objs: Seq<SceneObject>, m: u32)
    requires
        objs.len() <= usize::MAX + 1,
    ensures
        forall|i: int, j: int|
            0 <= i < j < batch_members(objs, m).len() ==> batch_members(objs, m)[i] < batch_members(
                objs,
                m,
            )[j],
        forall|k: int|
            0 <= k < objs.len() ==> (batch_members(objs, m).contains(k as usize) <==> object_material(
                #[trigger] objs[k],
            ) == Some(m)),
        forall|i: int|
            0 <= i < batch_members(objs, m).len() ==> batch_members(objs, m)[i] < objs.len(),
    decreases objs.len(),
{
    if objs.len() > 0 {
        let prev = objs.drop_last();
        lemma_batch_members_exact(prev, m);
        let pm = batch_members(prev, m);
        let cm = batch_members(objs, m);
        assert forall|k: int| 0 <= k < objs.len() implies (cm.contains(k as usize)
            <==> object_material(#[trigger] objs[k]) == Some(m)) by {
            if k < objs.len() - 1 {
                assert(prev[k] == objs[k]);
                if cm.contains(k as usize) {
                    let i = choose|i: int| 0 <= i < cm.len() && cm[i] == k as usize;
                    if i < pm.len() {
                        assert(pm.contains(k as usize));
                    }
                }
                if pm.contains(k as usize) {
                    let i = choose|i: int| 0 <= i < pm.len() && pm[i] == k as usize;
                    assert(cm[i] == k as usize);
                }
            } else {
                if object_material(objs[k]) == Some(m) {
                    assert(cm[pm.len() as int] == k as usize);
                } else {
                    if cm.contains(k as usize) {
                        let i = choose|i: int| 0 <= i < cm.len() && cm[i] == k as usize;
                        assert(pm[i] < prev.len());
                    }
                }
            }
        }
    }
}

/// The batches partition the objects that have a mesh with a material: each
/// such object is a member of exactly one batch, the batch of its material,
/// and no other object is a member of any batch.
pub proof fn lemma_batches_partition(batches: Seq<MeshBatch>, objs: Seq<SceneObject>, k: int)
    requires
        are_batches_of(batches, objs),
        0 <= k < objs.len(),
        objs.len() <= usize::MAX,
    ensures
        object_material(objs[k]) is None ==> forall|i: int|
            0 <= i < batches.len() ==> !(#[trigger] batches[i].members@).contains(k as usize),
        object_material(objs[k]) matches Some(m) ==> exists|i: int|
            0 <= i < batches.len() && batches[i].material == m && (
            #[trigger] batches[i].members@).contains(k as usize),
        forall|i: int, j: int|
            0 <= i < batches.len() && 0 <= j < batches.len() && (
            #[trigger] batches[i].members@).contains(k as usize) && (
            #[trigger] batches[j].members@).contains(k as usize) ==> i == j,
{
    let mats = batch_materials(objs);
    lemma_batch_materials_distinct(objs);
    assert forall|i: int| 0 <= i < batches.len() implies ((#[trigger] batches[i].members@).contains(
        k as usize,
    ) <==> object_material(objs[k]) == Some(mats[i])) by {
        assert(is_batch_of(batches[i], objs, mats[i]));
        lemma_batch_members_exact(objs, mats[i]);
    }
    if let Some(m) = object_material(objs[k]) {
        lemma_batch_materials_complete(objs, m);
        assert(mats.contains(m));
        let i = choose|i: int| 0 <= i < mats.len() && mats[i] == m;
        assert(is_batch_of(batches[i], objs, mats[i]));
        assert(batches[i].members@.contains(k as usize));
    }
}

/// Shifting every mesh's indices keeps them inside the batch: when every
/// index of every mesh points at one of that mesh's vertices, every index of
/// a batch points at one of the batch's vertices. This needs the batch's
/// vertices to be countable in `u32`: beyond, the offsets wrap around.
pub proof fn lemma_batch_indices_in_range(objs: Seq<SceneObject>, m: u32)
    requires
        batch_fits(objs),
        batch_vertex_count(objs, m) <= u32::MAX,
        forall|k: int, j: int|
            0 <= k < objs.len() && 0 <= j < object_indices(objs[k]).len() ==> #[trigger] object_indices(
                objs[k],
            )[j] < object_vertex_count(objs[k]),
    ensures
        forall|j: int|
            0 <= j < batch_indices(objs, m).len() ==> (#[trigger] batch_indices(objs, m)[j])
                < batch_vertex_count(objs, m),
    decreases objs.len(),
{
    if objs.len() > 0 {
        let prev = objs.drop_last();
        assert forall|k: int, j: int|
            0 <= k < prev.len() && 0 <= j < object_indices(prev[k]).len() implies #[trigger] object_indices(
            prev[k],
        )[j] < object_vertex_count(prev[k]) by {
            assert(prev[k] == objs[k]);
        }
        lemma_batch_indices_in_range(prev, m);
        let last = objs.last();
        assert(last == objs[objs.len() - 1]);
        let pi = batch_indices(prev, m);
        let ci = batch_indices(objs, m);
        if object_material(last) == Some(m) {
            let offset = batch_offset(prev, m);
            assert(offset == batch_vertex_count(prev, m));
            assert forall|j: int| 0 <= j < ci.len() implies (#[trigger] ci[j]) < batch_vertex_count(
                objs,
                m,
            ) by {
                if j >= pi.len() {
                    let t = j - pi.len();
                    assert(object_indices(last)[t] < object_vertex_count(last));
                    assert(object_indices(last)[t] + offset <= u32::MAX);
                }
            }
        }
    }
}

// Planning ----------------------------------------------------------------------------------

fn append_mesh(batch: &mut MeshBatch, k: usize, mesh: &Mesh)
    requires
        old(batch).vertex_count + mesh.vertex_count <= usize::MAX,
        forall|j: int|
            0 <= j < mesh.indices@.len() ==> mesh.indices@[j] + (old(batch).vertex_count as u32)
                <= u32::MAX,
    ensures
        final(batch).material == old(batch).material,
        final(batch).members@ == old(batch).members@.push(k),
        final(batch).vertex_count == old(batch).vertex_count + mesh.vertex_count,
        final(batch).indices@ == old(batch).indices@ + mesh.indices@.map_values(
            |i: u32| (i + (old(batch).vertex_count as u32)) as u32,
        ),
{
    let offset: u32 = batch.vertex_count as u32;
    let ghost start = batch.indices@;
    let ghost shifted = mesh.indices@.map_values(
        |i: u32| (i + (old(batch).vertex_count as u32)) as u32,
    );
    let mut j: usize = 0;
    while j < mesh.indices.len()
        invariant
            j <= mesh.indices@.len(),
            offset == old(batch).vertex_count as u32,
            batch.vertex_count == old(batch).vertex_count,
            batch.material == old(batch).material,
            batch.members@ == old(batch).members@,
            start == old(batch).indices@,
            shifted == mesh.indices@.map_values(
                |i: u32| (i + (old(batch).vertex_count as u32)) as u32,
            ),
            batch.indices@ =~= start + shifted.take(j as int),
            forall|t: int|
                0 <= t < mesh.indices@.len() ==> mesh.indices@[t] + offset <= u32::MAX,
        decreases mesh.indices@.len() - j,
    {
        let index: u32 = mesh.indices[j];
        batch.indices.push(index + offset);
        assert(shifted.take(j + 1) =~= shifted.take(j as int).push(shifted[j as int]));
        j = j + 1;
    }
    assert(shifted.take(j as int) =~= shifted);
    batch.members.push(k);
    batch.vertex_count = batch.vertex_count + mesh.vertex_count;
}

/// Groups the meshes of the objects by material. Each batch lists the objects
/// whose vertices it concatenates, the total vertex count, and the indices of
/// those meshes shifted to point into the concatenation. Objects without a
/// mesh, or with a mesh without a material, are left out.
pub fn plan_mesh_batches(objects: &Vec<SceneObject>) -> (batches: Vec<MeshBatch>)
    requires
        batch_fits(objects@),
    ensures
        are_batches_of(batches@, objects@),
{
    let mut slots: HashMap<u32, usize> = HashMap::new();
    let mut batches: Vec<MeshBatch> = Vec::new();
    let n: usize = objects.len();
    assert(objects@.take(0) =~= Seq::<SceneObject>::empty());
    for k in 0..n
        invariant
            n == objects@.len(),
            batch_fits(objects@),
            are_batches_of(batches@, objects@.take(k as int)),
            forall|m: u32|
                #![trigger slots@.contains_key(m)]
                slots@.contains_key(m) <==> batch_materials(objects@.take(k as int)).contains(m),
            forall|m: u32|
                #![trigger slots@.contains_key(m)]
                slots@.contains_key(m) ==> slots@[m] < batches@.len() && batch_materials(
                    objects@.take(k as int),
                )[slots@[m] as int] == m,
    {
        let ghost pre = objects@.take(k as int);
        let ghost cur = objects@.take(k + 1);
        proof {
            assert(cur.drop_last() =~= pre);
            assert(cur.last() == objects@[k as int]);
            lemma_fits_prefix(objects@, k + 1);
            lemma_batch_materials_distinct(pre);
            lemma_materials_grow(cur);
        }
        let object = &objects[k];
        match &object.source_mesh {
            Some(mesh) => {
                match mesh.material {
                    Some(m) => {
                        let pos: usize;
                        match slots.get(&m) {
                            Some(p) => {
                                pos = *p;
                            },
                            None => {
                                proof {
                                    lemma_absent_material(pre, m);
                                }
                                let batch = MeshBatch {
                                    material: m,
                                    members: Vec::new(),
                                    vertex_count: 0,
                                    indices: Vec::new(),
                                };
                                batches.push(batch);
                                pos = batches.len() - 1;
                                slots.insert(m, pos);
                                assert(batch_materials(cur) =~= batch_materials(pre).push(m));
                            },
                        }
                        let ghost before = batches@;
                        assert(is_batch_of(before[pos as int], pre, m));
                        proof {
                            assert(object_indices(cur.last()) == mesh.indices@);
                            assert forall|j: int| 0 <= j < mesh.indices@.len() implies mesh.indices@[j]
                                + (before[pos as int].vertex_count as u32) <= u32::MAX by {
                                assert(object_indices(cur.last())[j] == mesh.indices@[j]);
                            }
                        }
                        append_mesh(&mut batches[pos], k, mesh);
                        proof {
                            let mats = batch_materials(cur);
                            assert(mats[pos as int] == m);
                            assert forall|i: int| 0 <= i < batches@.len() implies is_batch_of(
                                #[trigger] batches@[i],
                                cur,
                                mats[i],
                            ) by {
                                if i == pos {
                                    assert(batches@[i].indices@ =~= batch_indices(cur, m));
                                } else {
                                    assert(batches@[i] == before[i]);
                                    if i < batch_materials(pre).len() {
                                        assert(mats[i] == batch_materials(pre)[i]);
                                        assert(mats[i] != m);
                                    }
                                }
                            }
                        }
                    },
                    None => {
                        proof {
                            assert(batch_materials(cur) =~= batch_materials(pre));
                            assert forall|i: int| 0 <= i < batches@.len() implies is_batch_of(
                                #[trigger] batches@[i],
                                cur,
                                batch_materials(cur)[i],
                            ) by {
                                assert(is_batch_of(batches@[i], pre, batch_materials(pre)[i]));
                            }
                        }
                    },
                }
            },
            None => {
                proof {
                    assert(batch_materials(cur) =~= batch_materials(pre));
                    assert forall|i: int| 0 <= i < batches@.len() implies is_batch_of(
                        #[trigger] batches@[i],
                        cur,
                        batch_materials(cur)[i],
                    ) by {
                        assert(is_batch_of(batches@[i], pre, batch_materials(pre)[i]));
                    }
                }
            },
        }
    }
    assert(objects@.take(n as int) =~= objects@);
    batches
}

fn indices_fit(indices: &Vec<u32>, offset: u32) -> (r: bool)
    ensures
        r == forall|j: int| 0 <= j < indices@.len() ==> indices@[j] + offset <= u32::MAX,
{
    let mut j: usize = 0;
    while j < indices.len()
        invariant
            j <= indices@.len(),
            forall|t: int| 0 <= t < j ==> indices@[t] + offset <= u32::MAX,
        decreases indices@.len() - j,
    {
        if indices[j] > u32::MAX - offset {
            return false;
        }
        j = j + 1;
    }
    true
}

/// Whether batching the objects keeps every batch within the `u32` index
/// format, that is whether `batch_objects` may be called on them.
pub fn batches_fit(objects: &Vec<SceneObject>) -> (r: bool)
    ensures
        r == batch_fits(objects@),
{
    let mut counts: HashMap<u32, usize> = HashMap::new();
    let n: usize = objects.len();
    assert(objects@.take(0) =~= Seq::<SceneObject>::empty());
    for k in 0..n
        invariant
            n == objects@.len(),
            batch_fits(objects@.take(k as int)),
            forall|m: u32|
                #![trigger counts@.contains_key(m)]
                counts@.contains_key(m) <==> batch_materials(objects@.take(k as int)).contains(m),
            forall|m: u32|
                #![trigger counts@.contains_key(m)]
                counts@.contains_key(m) ==> counts@[m] == batch_vertex_count(
                    objects@.take(k as int),
                    m,
                ),
    {
        let ghost pre = objects@.take(k as int);
        let ghost cur = objects@.take(k + 1);
        proof {
            assert(cur.drop_last() =~= pre);
            assert(cur.last() == objects@[k as int]);
            lemma_materials_grow(cur);
        }
        if let Some(mesh) = &objects[k].source_mesh {
            if let Some(m) = mesh.material {
                let count: usize = match counts.get(&m) {
                    Some(c) => *c,
                    None => {
                        proof {
                            lemma_absent_material(pre, m);
                        }
                        0
                    },
                };
                assert(count == batch_vertex_count(pre, m));
                if mesh.vertex_count > usize::MAX - count {
                    proof {
                        if batch_fits(objects@) {
                            lemma_fits_prefix(objects@, k + 1);
                        }
                    }
                    return false;
                }
                let fits = indices_fit(&mesh.indices, count as u32);
                if !fits {
                    assert(object_indices(cur.last()) == mesh.indices@);
                    proof {
                        if batch_fits(objects@) {
                            lemma_fits_prefix(objects@, k + 1);
                        }
                    }
                    return false;
                }
                let total: usize = count + mesh.vertex_count;
                let ghost before = counts@;
                counts.insert(m, total);
                proof {
                    let pm = batch_materials(pre);
                    let cm = batch_materials(cur);
                    if !pm.contains(m) {
                        assert(cm =~= pm.push(m));
                        assert(cm[pm.len() as int] == m);
                    } else {
                        assert(cm =~= pm);
                    }
                    assert forall|m2: u32| #[trigger] counts@.contains_key(m2) <==> cm.contains(m2) by {
                        if m2 != m && cm.contains(m2) && !pm.contains(m) {
                            let i = choose|i: int| 0 <= i < cm.len() && cm[i] == m2;
                            assert(pm[i] == m2);
                        }
                    }
                    assert(object_indices(cur.last()) == mesh.indices@);
                    assert forall|m2: u32| #[trigger] counts@.contains_key(m2) implies counts@[m2]
                        == batch_vertex_count(cur, m2) by {
                        if m2 != m {
                            assert(before.contains_key(m2));
                        }
                    }
                }
            } else {
                assert(batch_materials(cur) =~= batch_materials(pre));
            }
        } else {
            assert(batch_materials(cur) =~= batch_materials(pre));
        }
    }
    assert(objects@.take(n as int) =~= objects@);
    true
}

/// `o` is the scene object that stands for batch `b`.
pub open spec fn is_batched_object(o: SceneObject, b: MeshBatch) -> bool {
    &&& o._name matches Some(name) && name@ == "batched"@
    &&& o.index == b.material
    &&& o.parent_index is None
    &&& o.child_index@.len() == 0
    &&& o._shading_type == 44
    &&& o.source_mesh matches Some(mesh) && {
        &&& mesh.vertex_count == b.vertex_count
        &&& mesh.indices@ == b.indices@
        &&& mesh.material == Some(b.material)
    }
}

/// Replaces the scene's batched objects by one object per material, whose
/// mesh merges the meshes of every object with that material. Returns the
/// batches, whose member lists say in which order the members' vertices
/// are concatenated.
pub fn batch_objects(scene: &mut Scene) -> (batches: Vec<MeshBatch>)
    requires
        batch_fits(old(scene).objects@),
    ensures
        final(scene).objects@ == old(scene).objects@,
        final(scene).materials@ == old(scene).materials@,
        final(scene).parameters == old(scene).parameters,
        are_batches_of(batches@, old(scene).objects@),
        final(scene).batched_objects@.len() == batches@.len(),
        forall|i: int|
            0 <= i < batches@.len() ==> is_batched_object(
                #[trigger] final(scene).batched_objects@[i],
                batches@[i],
            ),
{
    scene.batched_objects = Vec::new();
    let batches = plan_mesh_batches(&scene.objects);
    let mut i: usize = 0;
    while i < batches.len()
        invariant
            i <= batches@.len(),
            scene.objects@ == old(scene).objects@,
            scene.materials@ == old(scene).materials@,
            scene.parameters == old(scene).parameters,
            scene.batched_objects@.len() == i,
            forall|t: int|
                0 <= t < i ==> is_batched_object(#[trigger] scene.batched_objects@[t], batches@[t]),
        decreases batches@.len() - i,
    {
        let batch = &batches[i];
        let indices = batch.indices.clone();
        assert(indices@ =~= batch.indices@);
        let object = SceneObject {
            _name: Some(String::from_str("batched")),
            index: batch.material,
            parent_index: None,
            child_index: Vec::new(),
            source_mesh: Some(
                Mesh { vertex_count: batch.vertex_count, indices, material: Some(batch.material) },
            ),
            _shading_type: 44,
        };
        scene.batched_objects.push(object);
        i = i + 1;
    }
    batches
}

} // verus!
