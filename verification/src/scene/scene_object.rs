//! Meshes, materials and their GPU buffers.

use crate::error::Error;
use crate::render_client::resource::{BufferId, BufferInitDescriptor, BufferUsage, Device, Resource};
use crate::utils::float_bits::{Vec2Bits, Vec3Bits};
use crate::utils::float_bits::{F32_0_5, F32_0_8, F32_ONE, F32_ZERO};
use vstd::prelude::*;

verus! {

/// A mesh as it comes from the loader.
#[derive(Debug, PartialEq, Eq)]
pub struct StaticMesh {
    pub name: String,
    pub positions: Vec<Vec3Bits>,
    pub normals: Vec<Vec3Bits>,
    pub uvs: Vec<Vec2Bits>,
    pub indices: Vec<u32>,
    pub material_id: Option<usize>,
}

/// A material without textures.
#[derive(Debug, PartialEq, Eq)]
pub struct Material {
    pub name: String,
    pub ambient: Vec3Bits,
    pub diffuse: Vec3Bits,
    pub specular: Vec3Bits,
    pub shininess: u32,
}

impl Material {
    /// The name of the material that a mesh without one gets.
    pub open spec fn default_name() -> Seq<char> {
        "Default material"@
    }

    /// Whether this is the default material: flat grey (ambient and diffuse
    /// 0.8 in each channel), white highlights, shininess 0.5.
    pub open spec fn is_default(&self) -> bool {
        &&& self.name@ == Self::default_name()
        &&& self.ambient == Vec3Bits { x: F32_0_8, y: F32_0_8, z: F32_0_8 }
        &&& self.diffuse == Vec3Bits { x: F32_0_8, y: F32_0_8, z: F32_0_8 }
        &&& self.specular == Vec3Bits { x: F32_ONE, y: F32_ONE, z: F32_ONE }
        &&& self.shininess == F32_0_5
    }

    /// A copy of this material.
    pub fn duplicate(&self) -> (copy: Material)
        ensures
            copy == *self,
    {
        Material {
            name: self.name.clone(),
            ambient: self.ambient,
            diffuse: self.diffuse,
            specular: self.specular,
            shininess: self.shininess,
        }
    }
}

impl Default for Material {
    fn default() -> (material: Material)
        ensures
            material.is_default(),
    {
        Material {
            name: String::from_str("Default material"),
            ambient: Vec3Bits { x: F32_0_8, y: F32_0_8, z: F32_0_8 },
            diffuse: Vec3Bits { x: F32_0_8, y: F32_0_8, z: F32_0_8 },
            specular: Vec3Bits { x: F32_ONE, y: F32_ONE, z: F32_ONE },
            shininess: F32_0_5,
        }
    }
}

/// Number of 32-bit words of one vertex record.
pub const VERTEX_WORDS: usize = 8;

/// Number of bytes of one vertex record.
pub const VERTEX_STRIDE: usize = 32;

/// Number of 32-bit words of the material block.
pub const MATERIAL_WORDS: usize = 16;

/// Number of bytes of the material block.
pub const MATERIAL_SIZE: usize = 64;

/// One vertex as the raster pipeline reads it: position, normal, texture
/// coordinate, in that order.
#[derive(Clone, Copy, Debug, PartialEq, Eq, Structural)]
pub struct VertexPod {
    pub position: Vec3Bits,
    pub normal: Vec3Bits,
    pub tex_coord: Vec2Bits,
}

impl VertexPod {
    /// The record's words in memory order.
    pub open spec fn words(self) -> Seq<u32> {
        seq![
            self.position.x,
            self.position.y,
            self.position.z,
            self.normal.x,
            self.normal.y,
            self.normal.z,
            self.tex_coord.x,
            self.tex_coord.y,
        ]
    }
}

/// The material as the shader's uniform block: ambient, diffuse, specular,
/// shininess, then six words of padding that fill the block to 64 bytes.
#[derive(Clone, Copy, Debug)]
pub struct MaterialPod {
    pub ambient: Vec3Bits,
    pub diffuse: Vec3Bits,
    pub specular: Vec3Bits,
    pub shininess: u32,
    pub padding: [u32; 6],
}

impl MaterialPod {
    /// The block's words in memory order.
    pub open spec fn words(self) -> Seq<u32> {
        seq![
            self.ambient.x,
            self.ambient.y,
            self.ambient.z,
            self.diffuse.x,
            self.diffuse.y,
            self.diffuse.z,
            self.specular.x,
            self.specular.y,
            self.specular.z,
            self.shininess,
        ] + self.padding@
    }
}

/// The words of the uniform block of a material with these four fields: the
/// fields in order, then six zero words of padding.
pub open spec fn material_words(
    ambient: Vec3Bits,
    diffuse: Vec3Bits,
    specular: Vec3Bits,
    shininess: u32,
) -> Seq<u32> {
    seq![
        ambient.x,
        ambient.y,
        ambient.z,
        diffuse.x,
        diffuse.y,
        diffuse.z,
        specular.x,
        specular.y,
        specular.z,
        shininess,
        0u32,
        0u32,
        0u32,
        0u32,
        0u32,
        0u32,
    ]
}

/// The words of the uniform block of the default material.
pub open spec fn default_material_words() -> Seq<u32> {
    material_words(
        Vec3Bits { x: F32_0_8, y: F32_0_8, z: F32_0_8 },
        Vec3Bits { x: F32_0_8, y: F32_0_8, z: F32_0_8 },
        Vec3Bits { x: F32_ONE, y: F32_ONE, z: F32_ONE },
        F32_0_5,
    )
}

/// The vertex record of a position, a normal and a texture coordinate.
pub open spec fn vertex_pod(pos: Vec3Bits, normal: Vec3Bits, tex_coord: Vec2Bits) -> VertexPod {
    VertexPod { position: pos, normal, tex_coord }
}

/// The uniform block of a material: its four fields, and zero padding.
pub open spec fn material_pod(material: Material) -> MaterialPod {
    MaterialPod {
        ambient: material.ambient,
        diffuse: material.diffuse,
        specular: material.specular,
        shininess: material.shininess,
        padding: [0u32, 0u32, 0u32, 0u32, 0u32, 0u32],
    }
}

pub fn create_vertex_pod(pos: Vec3Bits, normal: Vec3Bits, tex_coord: Vec2Bits) -> (pod: VertexPod)
    ensures
        pod == vertex_pod(pos, normal, tex_coord),
{
    VertexPod { position: pos, normal, tex_coord }
}

pub fn create_material_pod(material: &Material) -> (pod: MaterialPod)
    ensures
        pod == material_pod(*material),
        pod.words() == material_words(
            material.ambient,
            material.diffuse,
            material.specular,
            material.shininess,
        ),
{
    let padding: [u32; 6] = [0u32, 0u32, 0u32, 0u32, 0u32, 0u32];
    assert(padding@ =~= seq![0u32, 0u32, 0u32, 0u32, 0u32, 0u32]);
    assert(seq![
        material.ambient.x,
        material.ambient.y,
        material.ambient.z,
        material.diffuse.x,
        material.diffuse.y,
        material.diffuse.z,
        material.specular.x,
        material.specular.y,
        material.specular.z,
        material.shininess,
    ] + padding@ =~= material_words(
        material.ambient,
        material.diffuse,
        material.specular,
        material.shininess,
    ));
    MaterialPod {
        ambient: material.ambient,
        diffuse: material.diffuse,
        specular: material.specular,
        shininess: material.shininess,
        padding,
    }
}

/// The four bytes of a word, lowest first.
pub open spec fn word_bytes(w: u32) -> Seq<u8> {
    seq![
        (w & 0xff) as u8,
        ((w >> 8) & 0xff) as u8,
        ((w >> 16) & 0xff) as u8,
        ((w >> 24) & 0xff) as u8,
    ]
}

/// The words laid out in memory with the lowest byte of each word first.
pub open spec fn little_endian_layout(words: Seq<u32>) -> Seq<u8> {
    Seq::new(4 * words.len(), |i: int| word_bytes(words[i / 4])[i % 4])
}

/// The words laid out in memory with the highest byte of each word first.
pub open spec fn big_endian_layout(words: Seq<u32>) -> Seq<u8> {
    Seq::new(4 * words.len(), |i: int| word_bytes(words[i / 4])[3 - i % 4])
}

/// `bytes` is `words` as the host keeps them in memory. A host is either
/// little-endian or big-endian; which one it is cannot be told from the words.
pub open spec fn is_native_layout(bytes: Seq<u8>, words: Seq<u32>) -> bool {
    bytes == little_endian_layout(words) || bytes == big_endian_layout(words)
}

/// The memory of a slice of words, read as bytes.
///
/// Calls `bytemuck::cast_slice::<u32, u8>`, which reinterprets the slice's
/// memory without copying or converting: four bytes per word, in the byte order
/// of the host. Going from words to bytes it cannot fail, because a byte has no
/// alignment to meet and any number of words is a whole number of bytes.
#[verifier::external_body]
fn words_to_bytes(words: &Vec<u32>) -> (bytes: Vec<u8>)
    ensures
        is_native_layout(bytes@, words@),
{
    bytemuck::cast_slice::<u32, u8>(words.as_slice()).to_vec()
}

/// The words of the vertex buffer of a mesh with these positions: one record
/// per position, each with the normal (0, 1, 0) and the texture coordinate
/// (0, 0).
pub open spec fn vertex_words(positions: Seq<Vec3Bits>) -> Seq<u32> {
    Seq::new(
        8 * positions.len(),
        |i: int|
            vertex_pod(
                positions[i / 8],
                Vec3Bits { x: F32_ZERO, y: F32_ONE, z: F32_ZERO },
                Vec2Bits { x: F32_ZERO, y: F32_ZERO },
            ).words()[i % 8],
    )
}

/// The label of a buffer of the given kind that belongs to the mesh `name`.
pub open spec fn buffer_label(kind: Seq<char>, name: Seq<char>) -> Seq<char> {
    kind + " Buffer [ "@ + name + " ]"@
}

/// `resource` is a buffer with this label and usage, whose contents are
/// `words` in the host's memory layout.
pub open spec fn is_buffer_of(
    resource: Resource,
    label: Seq<char>,
    usage: BufferUsage,
    words: Seq<u32>,
) -> bool {
    &&& resource matches Resource::Buffer(desc)
    &&& desc.label matches Some(text)
    &&& text@ == label
    &&& desc.usage == usage
    &&& is_native_layout(desc.contents@, words)
}

/// `log` holds at `at`, `at + 1` and `at + 2` the vertex, index and material
/// buffer of `object`, which is the object of a mesh with this name, these
/// positions and indices, and a material with these words.
pub open spec fn object_at(
    log: Seq<Resource>,
    at: int,
    object: SceneObject,
    name: Seq<char>,
    positions: Seq<Vec3Bits>,
    indices: Seq<u32>,
    material: Seq<u32>,
) -> bool {
    &&& 0 <= at
    &&& at + 3 <= log.len()
    &&& object.name@ == name
    &&& object.vertex_buffer.0 == at
    &&& object.index_buffer.0 == at + 1
    &&& object.material.0 == at + 2
    &&& is_buffer_of(
        log[at],
        buffer_label("Vertex"@, name),
        BufferUsage::Vertex,
        vertex_words(positions),
    )
    &&& is_buffer_of(log[at + 1], buffer_label("Index"@, name), BufferUsage::Index, indices)
    &&& is_buffer_of(log[at + 2], buffer_label("Material"@, name), BufferUsage::Uniform, material)
}

/// The buffers of an object hold whole records. For a mesh of N vertices and
/// M triangles the vertex buffer holds N records of 32 bytes, and the index
/// buffer 3 × M indices of four bytes.
pub proof fn lemma_buffer_record_counts(
    log: Seq<Resource>,
    at: int,
    object: SceneObject,
    name: Seq<char>,
    positions: Seq<Vec3Bits>,
    indices: Seq<u32>,
    material: Seq<u32>,
    triangles: nat,
)
    requires
        object_at(log, at, object, name, positions, indices, material),
        indices.len() == 3 * triangles,
    ensures
        log[at]->Buffer_0.contents@.len() == VERTEX_STRIDE * positions.len(),
        log[at + 1]->Buffer_0.contents@.len() == 4 * (3 * triangles),
{
    lemma_native_layout(log[at]->Buffer_0.contents@, vertex_words(positions));
    lemma_native_layout(log[at + 1]->Buffer_0.contents@, indices);
}

/// The material buffer of an object is the block of its material: 64 bytes,
/// of which the last 24, the padding, are zero.
pub proof fn lemma_material_block(
    log: Seq<Resource>,
    at: int,
    object: SceneObject,
    name: Seq<char>,
    positions: Seq<Vec3Bits>,
    indices: Seq<u32>,
    ambient: Vec3Bits,
    diffuse: Vec3Bits,
    specular: Vec3Bits,
    shininess: u32,
)
    requires
        object_at(
            log,
            at,
            object,
            name,
            positions,
            indices,
            material_words(ambient, diffuse, specular, shininess),
        ),
    ensures
        log[at + 2]->Buffer_0.contents@.len() == MATERIAL_SIZE,
        forall|i: int|
            40 <= i < 64 ==> #[trigger] log[at + 2]->Buffer_0.contents@[i] == 0,
{
    let words = material_words(ambient, diffuse, specular, shininess);
    let bytes = log[at + 2]->Buffer_0.contents@;
    lemma_native_layout(bytes, words);
    assert forall|i: int| 40 <= i < 64 implies #[trigger] bytes[i] == 0 by {
        assert(10 <= i / 4 < 16);
        assert(words[i / 4] == 0);
    }
}

/// A native layout has four bytes for each word, and the bytes of a zero word
/// are zero.
pub proof fn lemma_native_layout(bytes: Seq<u8>, words: Seq<u32>)
    requires
        is_native_layout(bytes, words),
    ensures
        bytes.len() == 4 * words.len(),
        forall|i: int| 0 <= i < bytes.len() && words[i / 4] == 0 ==> #[trigger] bytes[i] == 0,
{
    assert(word_bytes(0u32) =~= seq![0u8, 0u8, 0u8, 0u8]) by {
        assert((0u32 & 0xff) as u8 == 0u8) by (bit_vector);
        assert(((0u32 >> 8) & 0xff) as u8 == 0u8) by (bit_vector);
        assert(((0u32 >> 16) & 0xff) as u8 == 0u8) by (bit_vector);
        assert(((0u32 >> 24) & 0xff) as u8 == 0u8) by (bit_vector);
    }
    assert forall|i: int| 0 <= i < bytes.len() && words[i / 4] == 0 implies #[trigger] bytes[i]
        == 0 by {
        assert(0 <= i % 4 < 4);
    }
}

fn vertex_buffer_words(positions: &Vec<Vec3Bits>) -> (words: Vec<u32>)
    ensures
        words@ == vertex_words(positions@),
{
    let mut words: Vec<u32> = Vec::new();
    let n = positions.len();
    let mut i: usize = 0;
    while i < n
        invariant
            n == positions@.len(),
            i <= n,
            words@.len() == 8 * i,
            forall|j: int| 0 <= j < words@.len() ==> words@[j] == vertex_words(positions@)[j],
        decreases n - i,
    {
        let pod = create_vertex_pod(
            positions[i],
            Vec3Bits { x: F32_ZERO, y: F32_ONE, z: F32_ZERO },
            Vec2Bits { x: F32_ZERO, y: F32_ZERO },
        );
        words.push(pod.position.x);
        words.push(pod.position.y);
        words.push(pod.position.z);
        words.push(pod.normal.x);
        words.push(pod.normal.y);
        words.push(pod.normal.z);
        words.push(pod.tex_coord.x);
        words.push(pod.tex_coord.y);
        i += 1;
    }
    assert(words@ =~= vertex_words(positions@));
    words
}

fn material_buffer_words(pod: &MaterialPod) -> (words: Vec<u32>)
    ensures
        words@ == pod.words(),
{
    let mut words: Vec<u32> = Vec::new();
    words.push(pod.ambient.x);
    words.push(pod.ambient.y);
    words.push(pod.ambient.z);
    words.push(pod.diffuse.x);
    words.push(pod.diffuse.y);
    words.push(pod.diffuse.z);
    words.push(pod.specular.x);
    words.push(pod.specular.y);
    words.push(pod.specular.z);
    words.push(pod.shininess);
    let mut k: usize = 0;
    while k < 6
        invariant
            k <= 6,
            words@.len() == 10 + k,
            words@.subrange(0, 10) == pod.words().subrange(0, 10),
            forall|j: int| 0 <= j < k ==> words@[10 + j] == pod.padding@[j],
        decreases 6 - k,
    {
        words.push(pod.padding[k]);
        k += 1;
    }
    assert(words@ =~= pod.words()) by {
        assert forall|j: int| 0 <= j < 16 implies words@[j] == pod.words()[j] by {
            if j < 10 {
                assert(words@[j] == words@.subrange(0, 10)[j]);
                assert(pod.words()[j] == pod.words().subrange(0, 10)[j]);
            } else {
                assert(words@[10 + (j - 10)] == pod.padding@[j - 10]);
            }
        }
    }
    words
}

fn make_buffer_label(kind: &str, name: &str) -> (label: String)
    ensures
        label@ == buffer_label(kind@, name@),
{
    let mut label = String::from_str(kind);
    label.append(" Buffer [ ");
    label.append(name);
    label.append(" ]");
    label
}

/// A mesh on the GPU: its vertex, index and material buffer.
#[derive(Debug, PartialEq, Eq)]
pub struct SceneObject {
    pub name: String,
    pub vertex_buffer: BufferId,
    pub index_buffer: BufferId,
    pub material: BufferId,
}

impl SceneObject {
    /// The object's three buffers are buffers of `log`.
    pub open spec fn wf(&self, log: Seq<Resource>) -> bool {
        &&& crate::render_client::resource::is_buffer(log, self.vertex_buffer)
        &&& crate::render_client::resource::is_buffer(log, self.index_buffer)
        &&& crate::render_client::resource::is_buffer(log, self.material)
    }

    /// Creates the three buffers of a mesh, in the order vertex, index,
    /// material.
    ///
    /// The vertex buffer holds one 32-byte record for each position of the
    /// mesh; the index buffer holds the mesh's indices, four bytes each, in
    /// their order; the material buffer holds the 64-byte block of `material`,
    /// whose last 24 bytes are zero.
    pub fn create(device: &mut Device, mesh: &StaticMesh, material: &Material) -> (r: Result<
        SceneObject,
        Error,
    >)
        ensures
            r matches Ok(object) && {
                let base = old(device)@.len() as int;
                &&& final(device)@.len() == base + 3
                &&& final(device)@.subrange(0, base) == old(device)@
                &&& object_at(
                    final(device)@,
                    base,
                    object,
                    mesh.name@,
                    mesh.positions@,
                    mesh.indices@,
                    material_words(
                        material.ambient,
                        material.diffuse,
                        material.specular,
                        material.shininess,
                    ),
                )
                &&& final(device)@[base]->Buffer_0.contents@.len() == 32 * mesh.positions@.len()
                &&& final(device)@[base + 1]->Buffer_0.contents@.len() == 4 * mesh.indices@.len()
                &&& final(device)@[base + 2]->Buffer_0.contents@.len() == 64
                &&& forall|i: int|
                    40 <= i < 64 ==> #[trigger] final(device)@[base + 2]->Buffer_0.contents@[i]
                        == 0
                &&& object.wf(final(device)@)
            },
    {
        let ghost base = device@.len() as int;
        let vertices = vertex_buffer_words(&mesh.positions);
        let vertex_bytes = words_to_bytes(&vertices);
        let vertex_buffer = device.create_buffer_init(
            BufferInitDescriptor {
                label: Some(make_buffer_label("Vertex", mesh.name.as_str())),
                contents: vertex_bytes,
                usage: BufferUsage::Vertex,
            },
        );
        let index_bytes = words_to_bytes(&mesh.indices);
        let index_buffer = device.create_buffer_init(
            BufferInitDescriptor {
                label: Some(make_buffer_label("Index", mesh.name.as_str())),
                contents: index_bytes,
                usage: BufferUsage::Index,
            },
        );
        let material_pod = create_material_pod(material);
        let block_words = material_buffer_words(&material_pod);
        let material_bytes = words_to_bytes(&block_words);
        let material = device.create_buffer_init(
            BufferInitDescriptor {
                label: Some(make_buffer_label("Material", mesh.name.as_str())),
                contents: material_bytes,
                usage: BufferUsage::Uniform,
            },
        );
        proof {
            lemma_native_layout(vertex_bytes@, vertices@);
            lemma_native_layout(index_bytes@, mesh.indices@);
            lemma_native_layout(material_bytes@, block_words@);
            assert(device@.subrange(0, base) =~= old(device)@);
            assert forall|i: int| 40 <= i < 64 implies #[trigger] material_bytes@[i] == 0 by {
                assert(10 <= i / 4 < 16);
                assert(block_words@[i / 4] == 0);
            }
        }
        Ok(SceneObject { name: mesh.name.clone(), vertex_buffer, index_buffer, material })
    }
}

} // verus!
