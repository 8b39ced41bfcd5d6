//! Vertices and meshes as the importer produces them, before they are handed
//! to the GPU.

use crate::error::{load_failed, AssetLoadError};
use vstd::prelude::*;

verus! {

/// The bit pattern of the number one: a full colour component.
pub const FULL_COMPONENT: u32 = 0x3f80_0000;

/// One vertex. Each component is the IEEE 754 bit pattern of a single
/// precision number. Position and texture coordinates are kept as the
/// geometry source gives them: the V axis is turned where the vertex is
/// handed to the GPU.
#[derive(Clone, Copy, Debug, PartialEq, Eq)]
pub struct Vertex {
    pub position: (u32, u32, u32),
    pub texture_coordinates: (u32, u32),
    pub color: (u32, u32, u32),
}

/// What a [`Mesh`] holds.
pub struct MeshView {
    pub name: Seq<char>,
    pub vertices: Seq<Vertex>,
    pub indices: Seq<u32>,
    pub number_of_indices: u32,
    pub texture_index: u32,
}

impl MeshView {
    /// The indices form whole triangles, and the stored count is their number.
    pub open spec fn wf(self) -> bool {
        &&& self.indices.len() % 3 == 0
        &&& self.number_of_indices == self.indices.len()
    }
}

/// Whether `indices` can be the index list of a mesh.
pub open spec fn indices_ok(indices: Seq<u32>) -> bool {
    indices.len() % 3 == 0 && indices.len() <= u32::MAX
}

/// Byte `k` of `word`, counted from the least significant.
pub open spec fn word_byte(word: u32, k: int) -> u8 {
    if k == 0 {
        (word % 0x100) as u8
    } else if k == 1 {
        (word / 0x100 % 0x100) as u8
    } else if k == 2 {
        (word / 0x1_0000 % 0x100) as u8
    } else {
        (word / 0x100_0000) as u8
    }
}

/// Byte `k` of the `i`th group of four in `bytes`.
pub open spec fn grouped_byte(bytes: Seq<u8>, i: int, k: int) -> u8 {
    bytes[4 * i + k]
}

/// Whether `bytes` are `words` one after another, four bytes to a word, each
/// word least significant byte first or each most significant byte first.
pub open spec fn holds_words(bytes: Seq<u8>, words: Seq<u32>, little_endian: bool) -> bool {
    &&& bytes.len() == 4 * words.len()
    &&& forall|i: int, k: int|
        0 <= i < words.len() && 0 <= k < 4 ==> #[trigger] grouped_byte(bytes, i, k) == word_byte(
            words[i],
            if little_endian {
                k
            } else {
                3 - k
            },
        )
}

/// Whether `bytes` are `words` as the machine lays them out in memory.
pub open spec fn is_memory_of(bytes: Seq<u8>, words: Seq<u32>) -> bool {
    holds_words(bytes, words, true) || holds_words(bytes, words, false)
}

/// Calls `bytemuck::cast_slice` to read a slice of 32-bit words as bytes. The
/// bytes are the memory of the words: four to a word in the order of the
/// words, in the byte order of the machine, which is one of two. Bytes need
/// no alignment and four of them always make a word, so the cast cannot fail.
#[verifier::external_body]
fn words_as_bytes(words: &[u32]) -> (bytes: &[u8])
    ensures
        is_memory_of(bytes@, words@),
{
    bytemuck::cast_slice(words)
}

/// A named triangle list with the texture slot of its model that it uses.
/// It does not change once made.
pub struct Mesh {
    name: String,
    vertices: Vec<Vertex>,
    indices: Vec<u32>,
    number_of_indices: u32,
    texture_index: u32,
}

impl View for Mesh {
    type V = MeshView;

    closed spec fn view(&self) -> MeshView {
        MeshView {
            name: self.name@,
            vertices: self.vertices@,
            indices: self.indices@,
            number_of_indices: self.number_of_indices,
            texture_index: self.texture_index,
        }
    }
}

impl Mesh {
    /// The invariant of every mesh that this library hands out.
    pub open spec fn wf(&self) -> bool {
        self@.wf()
    }

    /// Makes a mesh of `vertices` and `indices`, or refuses index lists that
    /// are not whole triangles or too long to count in 32 bits.
    pub fn new(name: &str, vertices: Vec<Vertex>, indices: Vec<u32>, texture_index: u32) -> (made:
        Result<Mesh, AssetLoadError>)
        ensures
            indices_ok(indices@) ==> made is Ok,
            !indices_ok(indices@) ==> load_failed(made, AssetLoadError::InvalidGeometry),
            made matches Ok(mesh) ==> mesh.wf() && mesh@ == (MeshView {
                name: name@,
                vertices: vertices@,
                indices: indices@,
                number_of_indices: indices@.len() as u32,
                texture_index,
            }),
    {
        let count: usize = indices.len();
        if count % 3 != 0 || count > 0xffff_ffff {
            return Err(AssetLoadError::InvalidGeometry);
        }
        Ok(
            Mesh {
                name: name.to_owned(),
                vertices,
                indices,
                number_of_indices: count as u32,
                texture_index,
            },
        )
    }

    pub fn get_name(&self) -> (name: &String)
        ensures
            name@ == self@.name,
    {
        &self.name
    }

    pub fn get_vertices(&self) -> (vertices: &Vec<Vertex>)
        ensures
            vertices@ == self@.vertices,
    {
        &self.vertices
    }

    /// The index list: always whole triangles.
    pub fn get_indices(&self) -> (indices: &Vec<u32>)
        requires
            self.wf(),
        ensures
            indices@ == self@.indices,
            indices@.len() % 3 == 0,
    {
        &self.indices
    }

    /// The contents of the index buffer: the indices as the machine lays them
    /// out in memory.
    pub fn get_index_bytes(&self) -> (bytes: &[u8])
        requires
            self.wf(),
        ensures
            is_memory_of(bytes@, self@.indices),
            bytes@.len() == 4 * self@.number_of_indices,
    {
        words_as_bytes(self.indices.as_slice())
    }

    pub fn get_number_of_indices(&self) -> (count: u32)
        requires
            self.wf(),
        ensures
            count == self@.number_of_indices,
            count == self@.indices.len(),
            count % 3 == 0,
    {
        self.number_of_indices
    }

    pub fn get_texture_index(&self) -> (slot: u32)
        ensures
            slot == self@.texture_index,
    {
        self.texture_index
    }
}

} // verus!
