//! From the models and materials of a geometry file to the scene's objects.

use crate::error::{Error, MaterialField};
use crate::render_client::resource::Device;
use crate::scene::scene_object::{Material, SceneObject, StaticMesh};
use crate::utils::float_bits::{Vec2Bits, Vec3Bits};
use vstd::prelude::*;

verus! {

/// The mesh of a model as the file has it: positions as a flat list of
/// coordinates, three for each vertex, and faces as runs of indices.
///
/// `face_arities` gives the number of corners of each face, in the order of
/// the faces. It is empty where every face is a triangle.
#[derive(Debug, PartialEq, Eq)]
pub struct RawMesh {
    pub positions: Vec<u32>,
    pub indices: Vec<u32>,
    pub face_arities: Vec<u32>,
    pub material_id: Option<usize>,
}

/// A model of the file.
#[derive(Debug, PartialEq, Eq)]
pub struct RawModel {
    pub mesh: RawMesh,
    pub name: String,
}

/// A material as the file has it: a field that the file does not give is `None`.
#[derive(Debug, PartialEq, Eq)]
pub struct RawMaterial {
    pub name: String,
    pub ambient: Option<Vec3Bits>,
    pub diffuse: Option<Vec3Bits>,
    pub specular: Option<Vec3Bits>,
    pub shininess: Option<u32>,
}

/// The positions of a flat list of coordinates: one for each full triple.
pub open spec fn mesh_positions(flat: Seq<u32>) -> Seq<Vec3Bits> {
    Seq::new(
        (flat.len() / 3) as nat,
        |v: int| Vec3Bits { x: flat[3 * v], y: flat[3 * v + 1], z: flat[3 * v + 2] },
    )
}

/// The first field, in the order ambient, diffuse, specular, shininess, that
/// the material lacks.
pub open spec fn missing_field(material: RawMaterial) -> Option<MaterialField> {
    if material.ambient is None {
        Some(MaterialField::Ambient)
    } else if material.diffuse is None {
        Some(MaterialField::Diffuse)
    } else if material.specular is None {
        Some(MaterialField::Specular)
    } else if material.shininess is None {
        Some(MaterialField::Shininess)
    } else {
        None
    }
}

/// A material is refused exactly when it lacks one of the four fields, and
/// the field that is named is one that it lacks.
pub proof fn lemma_missing_field(material: RawMaterial)
    ensures
        missing_field(material) is Some <==> material.ambient is None || material.diffuse is None
            || material.specular is None || material.shininess is None,
        missing_field(material) == Some(MaterialField::Ambient) ==> material.ambient is None,
        missing_field(material) == Some(MaterialField::Diffuse) ==> material.diffuse is None,
        missing_field(material) == Some(MaterialField::Specular) ==> material.specular is None,
        missing_field(material) == Some(MaterialField::Shininess) ==> material.shininess is None,
{
}

/// The field that fails a list of materials: the first field that the first
/// incomplete material lacks. `None` if every material is complete.
pub open spec fn first_missing(materials: Seq<RawMaterial>) -> Option<MaterialField>
    decreases materials.len(),
{
    if materials.len() == 0 {
        None
    } else if missing_field(materials.first()) is Some {
        missing_field(materials.first())
    } else {
        first_missing(materials.drop_first())
    }
}

/// A list of materials fails exactly when one of them is incomplete, and then
/// with the field of the first that is.
pub proof fn lemma_first_missing(materials: Seq<RawMaterial>)
    ensures
        first_missing(materials) is None <==> forall|i: int|
            0 <= i < materials.len() ==> missing_field(#[trigger] materials[i]) is None,
        first_missing(materials) matches Some(field) ==> exists|i: int|
            {
                &&& 0 <= i < materials.len()
                &&& missing_field(#[trigger] materials[i]) == Some(field)
                &&& forall|j: int| 0 <= j < i ==> missing_field(#[trigger] materials[j]) is None
            },
    decreases materials.len(),
{
    if materials.len() > 0 {
        let rest = materials.drop_first();
        lemma_first_missing(rest);
        assert forall|i: int| 0 <= i < rest.len() implies rest[i] == materials[i + 1] by {}
        if missing_field(materials.first()) is Some {
            assert(missing_field(materials[0]) is Some);
        } else {
            if first_missing(rest) is None {
                assert forall|i: int| 0 <= i < materials.len() implies missing_field(
                    #[trigger] materials[i],
                ) is None by {
                    if i > 0 {
                        assert(rest[i - 1] == materials[i]);
                    }
                }
            } else {
                let field = first_missing(rest)->Some_0;
                let k = choose|k: int|
                    {
                        &&& 0 <= k < rest.len()
                        &&& missing_field(#[trigger] rest[k]) == Some(field)
                        &&& forall|j: int| 0 <= j < k ==> missing_field(#[trigger] rest[j]) is None
                    };
                assert(missing_field(materials[k + 1]) == Some(field));
                assert forall|j: int| 0 <= j < k + 1 implies missing_field(
                    #[trigger] materials[j],
                ) is None by {
                    if j > 0 {
                        assert(rest[j - 1] == materials[j]);
                    }
                }
            }
        }
    }
}

/// `material` has the name and the four fields of `raw`.
pub open spec fn is_loaded_from(material: Material, raw: RawMaterial) -> bool {
    &&& material.name@ == raw.name@
    &&& Some(material.ambient) == raw.ambient
    &&& Some(material.diffuse) == raw.diffuse
    &&& Some(material.specular) == raw.specular
    &&& Some(material.shininess) == raw.shininess
}

/// The materials that a scene is loaded with: those of the material library,
/// or none where the library could not be read.
pub open spec fn library(materials: Option<Vec<RawMaterial>>) -> Seq<RawMaterial> {
    match materials {
        Some(list) => list@,
        None => Seq::empty(),
    }
}

/// The words of the uniform block of the material of `model`: those of the
/// material that the model names, or those of the default material where it
/// names none.
pub open spec fn model_material_words(model: RawModel, materials: Seq<RawMaterial>) -> Seq<u32> {
    match model.mesh.material_id {
        Some(id) => crate::scene::scene_object::material_words(
            materials[id as int].ambient->Some_0,
            materials[id as int].diffuse->Some_0,
            materials[id as int].specular->Some_0,
            materials[id as int].shininess->Some_0,
        ),
        None => crate::scene::scene_object::default_material_words(),
    }
}

/// A model that names no material gets the default material, whatever the
/// library holds: ambient and diffuse (0.8, 0.8, 0.8), specular (1, 1, 1),
/// shininess 0.5, and zero padding.
pub proof fn lemma_unnamed_material_is_default(model: RawModel, materials: Seq<RawMaterial>)
    requires
        model.mesh.material_id is None,
    ensures
        model_material_words(model, materials) == seq![
            crate::utils::float_bits::F32_0_8,
            crate::utils::float_bits::F32_0_8,
            crate::utils::float_bits::F32_0_8,
            crate::utils::float_bits::F32_0_8,
            crate::utils::float_bits::F32_0_8,
            crate::utils::float_bits::F32_0_8,
            crate::utils::float_bits::F32_ONE,
            crate::utils::float_bits::F32_ONE,
            crate::utils::float_bits::F32_ONE,
            crate::utils::float_bits::F32_0_5,
            0u32,
            0u32,
            0u32,
            0u32,
            0u32,
            0u32,
        ],
{
}

/// Every model that names a material names one of `materials`.
pub open spec fn materials_in_range(models: Seq<RawModel>, materials: Seq<RawMaterial>) -> bool {
    forall|i: int|
        0 <= i < models.len() ==> ((#[trigger] models[i]).mesh.material_id matches Some(id) ==> id
            < materials.len())
}

/// Whether every model that names a material names one of the library.
pub fn names_known_materials(models: &Vec<RawModel>, materials: &Option<Vec<RawMaterial>>) -> (ok:
    bool)
    ensures
        ok == materials_in_range(models@, library(*materials)),
{
    let count = match materials {
        Some(list) => list.len(),
        None => 0,
    };
    let n = models.len();
    let mut i: usize = 0;
    while i < n
        invariant
            n == models@.len(),
            i <= n,
            count == library(*materials).len(),
            forall|j: int|
                0 <= j < i ==> ((#[trigger] models@[j]).mesh.material_id matches Some(id) ==> id
                    < count),
        decreases n - i,
    {
        match models[i].mesh.material_id {
            Some(id) => {
                if id >= count {
                    return false;
                }
            },
            None => {},
        }
        i += 1;
    }
    true
}

/// The number of corners of all faces together.
pub open spec fn arity_sum(arities: Seq<u32>) -> nat
    decreases arities.len(),
{
    if arities.len() == 0 {
        0
    } else {
        arity_sum(arities.drop_last()) + arities.last() as nat
    }
}

/// The faces fit the indices: where no arities are given, the indices come in
/// threes; otherwise every face has at least three corners and the faces use
/// up the indices exactly.
pub open spec fn faces_fit(arities: Seq<u32>, index_count: nat) -> bool {
    if arities.len() == 0 {
        index_count % 3 == 0
    } else {
        &&& forall|k: int| 0 <= k < arities.len() ==> #[trigger] arities[k] >= 3
        &&& arity_sum(arities) == index_count
    }
}

/// The number of triangles of a mesh: a face of `a` corners is `a - 2`
/// triangles.
pub open spec fn triangle_count(arities: Seq<u32>, index_count: nat) -> nat {
    if arities.len() == 0 {
        index_count / 3
    } else {
        (arity_sum(arities) - 2 * arities.len()) as nat
    }
}

/// The corner of a face that is corner `c` of its triangle `k`. The face is
/// cut as a strip: triangle `k` has the corners `k`, `k + 1` and `k + 2`, the
/// first two in turn for odd `k`, so that a quad (0, 1, 2, 3) gives the
/// triangles (0, 1, 2) and (2, 1, 3).
pub open spec fn strip_corner(k: int, c: int) -> int {
    if c == 2 {
        k + 2
    } else if (k % 2 == 0) == (c == 0) {
        k
    } else {
        k + 1
    }
}

/// The triangles of one face, three indices each.
pub open spec fn face_triangles(face: Seq<u32>) -> Seq<u32> {
    if face.len() < 3 {
        Seq::empty()
    } else {
        Seq::new((3 * (face.len() - 2)) as nat, |j: int| face[strip_corner(j / 3, j % 3)])
    }
}

/// The triangles of the faces with these arities, face after face.
pub open spec fn triangle_list(indices: Seq<u32>, arities: Seq<u32>) -> Seq<u32>
    decreases arities.len(),
{
    if arities.len() == 0 {
        Seq::empty()
    } else {
        let start = arity_sum(arities.drop_last()) as int;
        triangle_list(indices, arities.drop_last()) + face_triangles(
            indices.subrange(start, start + arities.last()),
        )
    }
}

/// The indices of a mesh as a triangle list: the indices themselves where
/// every face is a triangle, and the triangles of its faces otherwise.
pub open spec fn mesh_indices(mesh: RawMesh) -> Seq<u32> {
    if mesh.face_arities@.len() == 0 {
        mesh.indices@
    } else {
        triangle_list(mesh.indices@, mesh.face_arities@)
    }
}

/// Whether an index of the mesh names no position.
pub open spec fn has_stray_index(mesh: RawMesh) -> bool {
    exists|j: int|
        0 <= j < mesh.indices@.len() && (#[trigger] mesh.indices@[j]) >= mesh.positions@.len() / 3
}

/// What is wrong with a mesh, if anything: faces that do not fit the indices.
/// What the indices hold is not looked at.
pub open spec fn mesh_fault(mesh: RawMesh) -> Option<Error> {
    if !faces_fit(mesh.face_arities@, mesh.indices@.len()) {
        Some(Error::MalformedFaces)
    } else {
        None
    }
}

/// What is wrong with the first model that has something wrong with it.
pub open spec fn first_fault(models: Seq<RawModel>) -> Option<Error>
    decreases models.len(),
{
    if models.len() == 0 {
        None
    } else if mesh_fault(models.first().mesh) is Some {
        mesh_fault(models.first().mesh)
    } else {
        first_fault(models.drop_first())
    }
}

/// A list of models is faulty exactly when one of them is, and then with the
/// fault of the first that is.
pub proof fn lemma_first_fault(models: Seq<RawModel>)
    ensures
        first_fault(models) is None <==> forall|i: int|
            0 <= i < models.len() ==> mesh_fault((#[trigger] models[i]).mesh) is None,
        first_fault(models) matches Some(fault) ==> exists|i: int|
            {
                &&& 0 <= i < models.len()
                &&& mesh_fault((#[trigger] models[i]).mesh) == Some(fault)
                &&& forall|j: int| 0 <= j < i ==> mesh_fault((#[trigger] models[j]).mesh) is None
            },
    decreases models.len(),
{
    if models.len() > 0 {
        let rest = models.drop_first();
        lemma_first_fault(rest);
        assert forall|i: int| 0 <= i < rest.len() implies rest[i] == models[i + 1] by {}
        if mesh_fault(models.first().mesh) is Some {
            assert(mesh_fault(models[0].mesh) is Some);
        } else {
            if first_fault(rest) is None {
                assert forall|i: int| 0 <= i < models.len() implies mesh_fault(
                    (#[trigger] models[i]).mesh,
                ) is None by {
                    if i > 0 {
                        assert(rest[i - 1] == models[i]);
                    }
                }
            } else {
                let fault = first_fault(rest)->Some_0;
                let k = choose|k: int|
                    {
                        &&& 0 <= k < rest.len()
                        &&& mesh_fault((#[trigger] rest[k]).mesh) == Some(fault)
                        &&& forall|j: int|
                            0 <= j < k ==> mesh_fault((#[trigger] rest[j]).mesh) is None
                    };
                assert(mesh_fault(models[k + 1].mesh) == Some(fault));
                assert forall|j: int| 0 <= j < k + 1 implies mesh_fault(
                    (#[trigger] models[j]).mesh,
                ) is None by {
                    if j > 0 {
                        assert(rest[j - 1] == models[j]);
                    }
                }
            }
        }
    }
}

/// A triangle stays as it is, and a quad is cut into two triangles over its
/// own four corners.
pub proof fn lemma_triangle_and_quad(a: u32, b: u32, c: u32, d: u32)
    ensures
        face_triangles(seq![a, b, c]) == seq![a, b, c],
        face_triangles(seq![a, b, c, d]) == seq![a, b, c, c, b, d],
{
    assert(face_triangles(seq![a, b, c]) =~= seq![a, b, c]);
    assert(face_triangles(seq![a, b, c, d]) =~= seq![a, b, c, c, b, d]);
}

/// The triangle list of a mesh of one face is the triangles of that face.
pub proof fn lemma_one_face(indices: Seq<u32>, arity: u32)
    requires
        arity == indices.len(),
    ensures
        arity_sum(seq![arity]) == arity,
        triangle_list(indices, seq![arity]) == face_triangles(indices),
{
    let arities = seq![arity];
    assert(arities.drop_last() =~= Seq::<u32>::empty());
    assert(arity_sum(arities.drop_last()) == 0);
    assert(arities.last() == arity);
    assert(triangle_list(indices, arities.drop_last()) =~= Seq::<u32>::empty());
    assert(indices.subrange(0, arity as int) =~= indices);
    assert(triangle_list(indices, arities) =~= face_triangles(indices));
}

/// The corners of the first faces are no more than the corners of all.
pub proof fn lemma_arity_sum_prefix(arities: Seq<u32>, n: int)
    requires
        0 <= n <= arities.len(),
    ensures
        arity_sum(arities.subrange(0, n)) <= arity_sum(arities),
        n < arities.len() ==> arity_sum(arities.subrange(0, n + 1)) == arity_sum(
            arities.subrange(0, n),
        ) + arities[n],
    decreases arities.len() - n,
{
    if n < arities.len() {
        let longer = arities.subrange(0, n + 1);
        assert(longer.drop_last() =~= arities.subrange(0, n));
        assert(longer.last() == arities[n]);
        lemma_arity_sum_prefix(arities, n + 1);
    } else {
        assert(arities.subrange(0, n) =~= arities);
    }
}

/// A triangle list has three indices for each triangle, and takes every one
/// of them from the indices of its faces: with faces of at least three corners
/// that lie within the indices, the list of a mesh of M triangles has 3 × M
/// entries, and none of them is `bound` or more if no index is.
pub proof fn lemma_triangle_list(indices: Seq<u32>, arities: Seq<u32>, bound: int)
    requires
        forall|k: int| 0 <= k < arities.len() ==> #[trigger] arities[k] >= 3,
        arity_sum(arities) <= indices.len(),
        forall|i: int| 0 <= i < indices.len() ==> #[trigger] indices[i] < bound,
    ensures
        triangle_list(indices, arities).len() == 3 * (arity_sum(arities) - 2 * arities.len()),
        arity_sum(arities) >= 3 * arities.len(),
        forall|j: int|
            0 <= j < triangle_list(indices, arities).len() ==> #[trigger] triangle_list(
                indices,
                arities,
            )[j] < bound,
    decreases arities.len(),
{
    if arities.len() > 0 {
        let head = arities.drop_last();
        let start = arity_sum(head) as int;
        let face = indices.subrange(start, start + arities.last());
        assert(arities.last() == arities[arities.len() - 1]);
        assert forall|k: int| 0 <= k < head.len() implies #[trigger] head[k] >= 3 by {
            assert(head[k] == arities[k]);
        }
        lemma_triangle_list(indices, head, bound);
        let list = triangle_list(indices, arities);
        let before = triangle_list(indices, head);
        assert forall|j: int| 0 <= j < list.len() implies #[trigger] list[j] < bound by {
            if j >= before.len() {
                let t = j - before.len();
                let corner = strip_corner(t / 3, t % 3);
                assert(0 <= corner < face.len());
                assert(list[j] == face[corner]);
                assert(face[corner] == indices[start + corner]);
            } else {
                assert(list[j] == before[j]);
            }
        }
    }
}

fn copy_words(words: &Vec<u32>) -> (copy: Vec<u32>)
    ensures
        copy@ == words@,
{
    let mut copy: Vec<u32> = Vec::new();
    let n = words.len();
    let mut i: usize = 0;
    while i < n
        invariant
            n == words@.len(),
            i <= n,
            copy@ == words@.subrange(0, i as int),
        decreases n - i,
    {
        copy.push(words[i]);
        assert(copy@ =~= words@.subrange(0, i + 1));
        i += 1;
    }
    assert(copy@ =~= words@);
    copy
}

/// The triangles of the faces of a mesh that gives arities, or `None` if the
/// faces do not fit the indices.
fn triangulate(indices: &Vec<u32>, arities: &Vec<u32>) -> (r: Option<Vec<u32>>)
    requires
        arities@.len() > 0,
    ensures
        match r {
            Some(list) => faces_fit(arities@, indices@.len()) && list@ == triangle_list(
                indices@,
                arities@,
            ),
            None => !faces_fit(arities@, indices@.len()),
        },
{
    let mut list: Vec<u32> = Vec::new();
    let len = indices.len();
    let faces = arities.len();
    let mut next_face: usize = 0;
    let mut face: usize = 0;
    assert(arities@.subrange(0, 0) =~= Seq::<u32>::empty());
    while face < faces
        invariant
            len == indices@.len(),
            faces == arities@.len(),
            face <= faces,
            next_face <= len,
            next_face == arity_sum(arities@.subrange(0, face as int)),
            forall|k: int| 0 <= k < face ==> #[trigger] arities@[k] >= 3,
            list@ == triangle_list(indices@, arities@.subrange(0, face as int)),
        decreases faces - face,
    {
        let arity = arities[face] as usize;
        proof {
            lemma_arity_sum_prefix(arities@, face as int);
            lemma_arity_sum_prefix(arities@, face + 1);
        }
        if arity < 3 {
            return None;
        }
        if arity > len - next_face {
            return None;
        }
        let ghost before = list@;
        let ghost corners = indices@.subrange(next_face as int, next_face + arity);
        let triangles = arity - 2;
        let mut k: usize = 0;
        while k < triangles
            invariant
                len == indices@.len(),
                arity >= 3,
                triangles == arity - 2,
                next_face + arity <= len,
                k <= triangles,
                corners == indices@.subrange(next_face as int, next_face + arity),
                list@.len() == before.len() + 3 * k,
                list@.subrange(0, before.len() as int) == before,
                forall|j: int|
                    0 <= j < 3 * k ==> #[trigger] list@[before.len() + j] == face_triangles(
                        corners,
                    )[j],
            decreases triangles - k,
        {
            let first = if k % 2 == 0 {
                k
            } else {
                k + 1
            };
            let second = if k % 2 == 0 {
                k + 1
            } else {
                k
            };
            let ghost so_far = list@;
            list.push(indices[next_face + first]);
            list.push(indices[next_face + second]);
            list.push(indices[next_face + k + 2]);
            proof {
                assert(list@.subrange(0, before.len() as int) =~= before);
                assert forall|j: int| 0 <= j < 3 * (k + 1) implies #[trigger] list@[before.len()
                    + j] == face_triangles(corners)[j] by {
                    if j < 3 * k {
                        assert(list@[before.len() + j] == so_far[before.len() + j]);
                    } else {
                        assert(j / 3 == k);
                        let c = j % 3;
                        assert(corners[strip_corner(k as int, c)] == indices@[next_face
                            + strip_corner(k as int, c)]);
                    }
                }
            }
            k += 1;
        }
        proof {
            let done = arities@.subrange(0, face + 1);
            assert(done.drop_last() =~= arities@.subrange(0, face as int));
            assert(done.last() == arities@[face as int]);
            assert(corners.len() == arity);
            assert(face_triangles(corners).len() == 3 * triangles);
            let whole = before + face_triangles(corners);
            assert forall|j: int| 0 <= j < list@.len() implies list@[j] == whole[j] by {
                if j < before.len() {
                    assert(list@.subrange(0, before.len() as int)[j] == before[j]);
                } else {
                    assert(list@[before.len() + (j - before.len())] == face_triangles(corners)[j
                        - before.len()]);
                }
            }
            assert(list@ =~= whole);
        }
        next_face = next_face + arity;
        face += 1;
    }
    assert(arities@.subrange(0, faces as int) =~= arities@);
    if next_face != len {
        return None;
    }
    Some(list)
}

/// The mesh of a model: a position for each full triple of coordinates, the
/// model's faces as a triangle list, and its material. Normals and texture
/// coordinates are not taken over.
///
/// A mesh whose faces do not fit its indices is refused. Any other mesh is
/// taken, whatever its indices hold: it has three indices for each of its
/// triangles, a face of more than three corners being cut into triangles.
/// Every index of the list is an index of the model, so where each of those
/// names a position, each of the list does.
pub fn load_model(model: &RawModel) -> (r: Result<StaticMesh, Error>)
    ensures
        match mesh_fault(model.mesh) {
            Some(fault) => r matches Err(e) && e == fault,
            None => r matches Ok(mesh) && {
                &&& mesh.name@ == model.name@
                &&& mesh.positions@ == mesh_positions(model.mesh.positions@)
                &&& mesh.normals@ == Seq::<Vec3Bits>::empty()
                &&& mesh.uvs@ == Seq::<Vec2Bits>::empty()
                &&& mesh.indices@ == mesh_indices(model.mesh)
                &&& mesh.material_id == model.mesh.material_id
                &&& mesh.indices@.len() == 3 * triangle_count(
                    model.mesh.face_arities@,
                    model.mesh.indices@.len(),
                )
                &&& !has_stray_index(model.mesh) ==> forall|j: int|
                    0 <= j < mesh.indices@.len() ==> #[trigger] mesh.indices@[j]
                        < mesh.positions@.len()
            },
        },
{
    let mut positions: Vec<Vec3Bits> = Vec::new();
    let normals: Vec<Vec3Bits> = Vec::new();
    let uvs: Vec<Vec2Bits> = Vec::new();

    let mesh = &model.mesh;
    let len = mesh.positions.len();
    let count = len / 3;
    let mut vtx: usize = 0;
    while vtx < count
        invariant
            len == mesh.positions@.len(),
            count == len / 3,
            vtx <= count,
            positions@.len() == vtx,
            forall|v: int| 0 <= v < vtx ==> positions@[v] == mesh_positions(mesh.positions@)[v],
        decreases count - vtx,
    {
        positions.push(
            Vec3Bits {
                x: mesh.positions[3 * vtx],
                y: mesh.positions[3 * vtx + 1],
                z: mesh.positions[3 * vtx + 2],
            },
        );
        vtx += 1;
    }
    assert(positions@ =~= mesh_positions(mesh.positions@));

    let indices = if mesh.face_arities.len() == 0 {
        if mesh.indices.len() % 3 != 0 {
            return Err(Error::MalformedFaces);
        }
        copy_words(&mesh.indices)
    } else {
        match triangulate(&mesh.indices, &mesh.face_arities) {
            Some(list) => list,
            None => {
                return Err(Error::MalformedFaces);
            },
        }
    };
    proof {
        if mesh.face_arities@.len() > 0 {
            lemma_triangle_list(mesh.indices@, mesh.face_arities@, 0x1_0000_0000);
            if !has_stray_index(*mesh) {
                lemma_triangle_list(mesh.indices@, mesh.face_arities@, count as int);
            }
        }
    }

    Ok(
        StaticMesh {
            name: model.name.clone(),
            positions,
            normals,
            uvs,
            indices,
            material_id: mesh.material_id,
        },
    )
}

/// The material of a raw material that gives all four fields. One that lacks
/// a field is refused with the error of the first field it lacks: a field is
/// never made up.
pub fn load_material(material: &RawMaterial) -> (r: Result<Material, Error>)
    ensures
        match missing_field(*material) {
            Some(field) => r matches Err(e) && e == Error::MissingMaterialField(field),
            None => r matches Ok(loaded) && is_loaded_from(loaded, *material),
        },
{
    let ambient = match material.ambient {
        Some(ambient) => ambient,
        None => {
            return Err(Error::MissingMaterialField(MaterialField::Ambient));
        },
    };
    let diffuse = match material.diffuse {
        Some(diffuse) => diffuse,
        None => {
            return Err(Error::MissingMaterialField(MaterialField::Diffuse));
        },
    };
    let specular = match material.specular {
        Some(specular) => specular,
        None => {
            return Err(Error::MissingMaterialField(MaterialField::Specular));
        },
    };
    let shininess = match material.shininess {
        Some(shininess) => shininess,
        None => {
            return Err(Error::MissingMaterialField(MaterialField::Shininess));
        },
    };
    Ok(Material { name: material.name.clone(), ambient, diffuse, specular, shininess })
}

fn load_models(models: &Vec<RawModel>) -> (r: Result<Vec<StaticMesh>, Error>)
    ensures
        match first_fault(models@) {
            Some(fault) => r matches Err(e) && e == fault,
            None => r matches Ok(meshes) && {
                &&& meshes@.len() == models@.len()
                &&& forall|i: int|
                    0 <= i < models@.len() ==> {
                        &&& (#[trigger] meshes@[i]).name@ == models@[i].name@
                        &&& meshes@[i].positions@ == mesh_positions(models@[i].mesh.positions@)
                        &&& meshes@[i].indices@ == mesh_indices(models@[i].mesh)
                        &&& meshes@[i].material_id == models@[i].mesh.material_id
                    }
            },
        },
{
    let mut meshes: Vec<StaticMesh> = Vec::new();
    let n = models.len();
    let mut i: usize = 0;
    assert(models@.skip(0) =~= models@);
    while i < n
        invariant
            n == models@.len(),
            i <= n,
            meshes@.len() == i,
            first_fault(models@) == first_fault(models@.skip(i as int)),
            forall|j: int|
                0 <= j < i ==> {
                    &&& (#[trigger] meshes@[j]).name@ == models@[j].name@
                    &&& meshes@[j].positions@ == mesh_positions(models@[j].mesh.positions@)
                    &&& meshes@[j].indices@ == mesh_indices(models@[j].mesh)
                    &&& meshes@[j].material_id == models@[j].mesh.material_id
                },
        decreases n - i,
    {
        proof {
            let rest = models@.skip(i as int);
            assert(rest.first() == models@[i as int]);
            assert(rest.drop_first() =~= models@.skip(i + 1));
        }
        match load_model(&models[i]) {
            Ok(mesh) => {
                meshes.push(mesh);
            },
            Err(e) => {
                return Err(e);
            },
        }
        i += 1;
    }
    Ok(meshes)
}

fn load_materials(materials: &Vec<RawMaterial>) -> (r: Result<Vec<Material>, Error>)
    ensures
        match first_missing(materials@) {
            Some(field) => r matches Err(e) && e == Error::MissingMaterialField(field),
            None => r matches Ok(loaded) && {
                &&& loaded@.len() == materials@.len()
                &&& forall|i: int|
                    0 <= i < materials@.len() ==> missing_field(#[trigger] materials@[i]) is None
                        && is_loaded_from(loaded@[i], materials@[i])
            },
        },
{
    let mut loaded: Vec<Material> = Vec::new();
    let n = materials.len();
    let mut i: usize = 0;
    assert(materials@.skip(0) =~= materials@);
    while i < n
        invariant
            n == materials@.len(),
            i <= n,
            loaded@.len() == i,
            first_missing(materials@) == first_missing(materials@.skip(i as int)),
            forall|j: int|
                0 <= j < i ==> missing_field(#[trigger] materials@[j]) is None && is_loaded_from(
                    loaded@[j],
                    materials@[j],
                ),
        decreases n - i,
    {
        proof {
            let rest = materials@.skip(i as int);
            assert(rest.first() == materials@[i as int]);
            assert(rest.drop_first() =~= materials@.skip(i + 1));
        }
        match load_material(&materials[i]) {
            Ok(material) => {
                loaded.push(material);
            },
            Err(e) => {
                return Err(e);
            },
        }
        i += 1;
    }
    Ok(loaded)
}

/// What the load of a scene ends with where it creates nothing: the field of
/// the first incomplete material; failing that, the fault of the first faulty
/// model; failing that, a model that names a material outside the library.
pub open spec fn scene_fault(models: Seq<RawModel>, materials: Seq<RawMaterial>) -> Option<Error> {
    match first_missing(materials) {
        Some(field) => Some(Error::MissingMaterialField(field)),
        None => match first_fault(models) {
            Some(fault) => Some(fault),
            None => if !materials_in_range(models, materials) {
                Some(Error::UnknownMaterial)
            } else {
                None
            },
        },
    }
}

/// A load does not fail for lack of a material. Where every material of the
/// library is complete and the faces of every mesh fit its indices, a scene
/// loads if each mesh that names a material names one of the library; a mesh
/// that names none asks nothing of the library, and gets the default
/// material: ambient and diffuse (0.8, 0.8, 0.8), specular (1, 1, 1),
/// shininess 0.5, and zero padding.
pub proof fn lemma_scene_loads(models: Seq<RawModel>, materials: Seq<RawMaterial>)
    requires
        forall|i: int| 0 <= i < materials.len() ==> missing_field(#[trigger] materials[i]) is None,
        forall|i: int|
            0 <= i < models.len() ==> faces_fit(
                (#[trigger] models[i]).mesh.face_arities@,
                models[i].mesh.indices@.len(),
            ),
        forall|i: int|
            0 <= i < models.len() ==> ((#[trigger] models[i]).mesh.material_id matches Some(id)
                ==> id < materials.len()),
    ensures
        scene_fault(models, materials) is None,
        forall|i: int|
            0 <= i < models.len() && (#[trigger] models[i]).mesh.material_id is None
                ==> model_material_words(models[i], materials)
                == crate::scene::scene_object::default_material_words(),
{
    lemma_first_missing(materials);
    lemma_first_fault(models);
}

/// Creates the objects of a scene from the models and materials of its file,
/// one object for each model and in the models' order.
///
/// `materials` is `None` where the material library could not be read; the
/// scene is then loaded as with an empty library.
///
/// The load fails, before anything is created, with the error of
/// `scene_fault`: a material that lacks a field fails it whatever else the
/// file holds, then a model whose mesh is faulty, then a model that names a
/// material outside the library. Otherwise the object of model `i` has its
/// three buffers at `base + 3 * i` in the device's log, with the model's
/// triangle list and the material that the model names, or the default
/// material where it names none.
pub fn load_scene_objects(
    device: &mut Device,
    models: &Vec<RawModel>,
    materials: Option<Vec<RawMaterial>>,
) -> (r: Result<Vec<SceneObject>, Error>)
    ensures
        match scene_fault(models@, library(materials)) {
            Some(fault) => {
                &&& r matches Err(e) && e == fault
                &&& final(device)@ == old(device)@
            },
            None => r matches Ok(objects) && {
                let base = old(device)@.len() as int;
                &&& objects@.len() == models@.len()
                &&& final(device)@.len() == base + 3 * models@.len()
                &&& old(device)@.is_prefix_of(final(device)@)
                &&& forall|i: int|
                    0 <= i < models@.len() ==> crate::scene::scene_object::object_at(
                        final(device)@,
                        base + 3 * i,
                        #[trigger] objects@[i],
                        models@[i].name@,
                        mesh_positions(models@[i].mesh.positions@),
                        mesh_indices(models@[i].mesh),
                        model_material_words(models@[i], library(materials)),
                    )
                &&& forall|i: int|
                    0 <= i < objects@.len() ==> (#[trigger] objects@[i]).wf(final(device)@)
            },
        },
{
    let ghost raw = library(materials);
    let known = names_known_materials(models, &materials);
    let loaded = match materials {
        Some(list) => {
            match load_materials(&list) {
                Ok(loaded) => loaded,
                Err(e) => {
                    return Err(e);
                },
            }
        },
        None => Vec::new(),
    };
    let static_meshes = match load_models(models) {
        Ok(meshes) => meshes,
        Err(e) => {
            return Err(e);
        },
    };
    if !known {
        return Err(Error::UnknownMaterial);
    }

    let ghost base = device@.len() as int;
    let mut objects: Vec<SceneObject> = Vec::new();
    let n = static_meshes.len();
    let mut i: usize = 0;
    while i < n
        invariant
            n == static_meshes@.len(),
            n == models@.len(),
            i <= n,
            base == old(device)@.len(),
            objects@.len() == i,
            device@.len() == base + 3 * i,
            old(device)@.is_prefix_of(device@),
            materials_in_range(models@, raw),
            loaded@.len() == raw.len(),
            forall|k: int|
                0 <= k < raw.len() ==> missing_field(#[trigger] raw[k]) is None && is_loaded_from(
                    loaded@[k],
                    raw[k],
                ),
            forall|k: int|
                0 <= k < n ==> {
                    &&& (#[trigger] static_meshes@[k]).name@ == models@[k].name@
                    &&& static_meshes@[k].positions@ == mesh_positions(models@[k].mesh.positions@)
                    &&& static_meshes@[k].indices@ == mesh_indices(models@[k].mesh)
                    &&& static_meshes@[k].material_id == models@[k].mesh.material_id
                },
            forall|j: int|
                0 <= j < i ==> crate::scene::scene_object::object_at(
                    device@,
                    base + 3 * j,
                    #[trigger] objects@[j],
                    models@[j].name@,
                    mesh_positions(models@[j].mesh.positions@),
                    mesh_indices(models@[j].mesh),
                    model_material_words(models@[j], raw),
                ),
            forall|j: int| 0 <= j < i ==> (#[trigger] objects@[j]).wf(device@),
        decreases n - i,
    {
        let mesh = &static_meshes[i];
        let ghost model = models@[i as int];
        let material = match mesh.material_id {
            Some(material_id) => {
                assert(model.mesh.material_id == Some(material_id));
                loaded[material_id].duplicate()
            },
            None => Material::default(),
        };
        let ghost before = device@;
        let ghost earlier = objects@;
        let object = match SceneObject::create(device, mesh, &material) {
            Ok(object) => object,
            Err(e) => {
                return Err(e);
            },
        };
        objects.push(object);
        proof {
            assert(device@.subrange(0, before.len() as int) == before);
            assert forall|k: int| 0 <= k < before.len() implies device@[k] == before[k] by {
                assert(device@.subrange(0, before.len() as int)[k] == before[k]);
            }
            assert(old(device)@.is_prefix_of(device@));
            assert forall|j: int| 0 <= j < i + 1 implies crate::scene::scene_object::object_at(
                device@,
                base + 3 * j,
                #[trigger] objects@[j],
                models@[j].name@,
                mesh_positions(models@[j].mesh.positions@),
                mesh_indices(models@[j].mesh),
                model_material_words(models@[j], raw),
            ) by {
                if j < i {
                    assert(objects@[j] == earlier[j]);
                    assert(crate::scene::scene_object::object_at(
                        before,
                        base + 3 * j,
                        earlier[j],
                        models@[j].name@,
                        mesh_positions(models@[j].mesh.positions@),
                        mesh_indices(models@[j].mesh),
                        model_material_words(models@[j], raw),
                    ));
                }
            }
            assert forall|j: int| 0 <= j < i + 1 implies (#[trigger] objects@[j]).wf(device@) by {
                if j < i {
                    assert(objects@[j] == earlier[j]);
                    assert(earlier[j].wf(before));
                }
            }
        }
        i += 1;
    }
    Ok(objects)
}

} // verus!
