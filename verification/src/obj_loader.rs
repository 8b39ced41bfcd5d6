//! The model importer: from the bytes of a Wavefront OBJ source to a model.
//!
//! Parsing is `tobj`'s work. What follows it is decided here: which parsed
//! data can make a model, and what that model holds.

use crate::decimal::{decimal_digits, unsigned_decimal_string};
use crate::error::AssetLoadError;
use crate::mesh::{indices_ok, Mesh, MeshView, Vertex, FULL_COMPONENT};
use crate::model::{mesh_views, Model, ModelView};
use vstd::prelude::*;

verus! {

/// `tobj::LoadError`: why `tobj` refused a source. The library only tells it
/// from success.
#[verifier::external_type_specification]
#[verifier::external_body]
pub struct ExLoadError(tobj::LoadError);

/// `tobj::Material`: a material of a material library. The library makes
/// none and reads none.
#[verifier::external_type_specification]
#[verifier::external_body]
pub struct ExMaterial(tobj::Material);

/// `ahash::AHashMap`: the map in which `tobj` wants the places of the
/// materials by name. The library only ever hands over an empty one.
#[verifier::external_type_specification]
#[verifier::external_body]
#[verifier::reject_recursive_types(K)]
#[verifier::reject_recursive_types(V)]
#[verifier::reject_recursive_types(S)]
pub struct ExAHashMap<K, V, S>(ahash::AHashMap<K, V, S>);

/// `ahash::RandomState`: the hasher state of an `AHashMap`.
#[verifier::external_type_specification]
#[verifier::external_body]
pub struct ExRandomState(ahash::RandomState);

/// The places that a map of material names holds, by name.
pub uninterp spec fn material_index(index: ahash::AHashMap<String, usize>) -> Map<Seq<char>, usize>;

/// The map of material names that holds nothing.
pub open spec fn no_places() -> Map<Seq<char>, usize> {
    Map::empty()
}

/// Calls `ahash::AHashMap::new`, which makes a map that holds nothing.
#[verifier::external_body]
fn new_material_index() -> (made: ahash::AHashMap<String, usize>)
    ensures
        material_index(made) == no_places(),
{
    ahash::AHashMap::new()
}

/// One submesh as the parser gives it: flat lists of position components
/// (three to a vertex), of texture coordinates (two to a vertex) and of vertex
/// indices. Components are IEEE 754 single precision bit patterns.
pub struct RawMesh {
    pub positions: Vec<u32>,
    pub texcoords: Vec<u32>,
    pub indices: Vec<u32>,
}

/// What a [`RawMesh`] holds.
pub struct RawMeshView {
    pub positions: Seq<u32>,
    pub texcoords: Seq<u32>,
    pub indices: Seq<u32>,
}

impl View for RawMesh {
    type V = RawMeshView;

    open spec fn view(&self) -> RawMeshView {
        RawMeshView {
            positions: self.positions@,
            texcoords: self.texcoords@,
            indices: self.indices@,
        }
    }
}

/// The views of `raws`, in order.
pub open spec fn raw_views(raws: Seq<RawMesh>) -> Seq<RawMeshView> {
    Seq::new(raws.len(), |i: int| raws[i]@)
}

/// Whether `byte` is an ASCII digit.
pub open spec fn is_digit(byte: u8) -> bool {
    0x30 <= byte <= 0x39
}

/// The longest run of digits that a source may hold: an index of that many
/// digits, tripled, still fits a machine word.
pub open spec fn digit_limit() -> int {
    if usize::MAX > 0xffff_ffff {
        18
    } else {
        9
    }
}

/// Whether `data` holds a slash directly before a minus sign at `i`.
pub open spec fn relative_part_at(data: Seq<u8>, i: int) -> bool {
    0 <= i && i + 1 < data.len() && data[i] == 0x2f && data[i + 1] == 0x2d
}

/// Whether the `n` bytes of `data` from `i` on are all digits.
pub open spec fn digit_run_at(data: Seq<u8>, i: int, n: int) -> bool {
    0 <= i && i + n <= data.len() && forall|j: int| i <= j < i + n ==> is_digit(#[trigger] data[j])
}

/// Whether a run of digits longer than `digit_limit` starts at `i`.
pub open spec fn long_run_at(data: Seq<u8>, i: int) -> bool {
    digit_run_at(data, i, digit_limit() + 1)
}

/// Whether `data` can be given to the parser: it holds no slash directly
/// before a minus sign and no run of digits longer than `digit_limit`.
pub open spec fn source_supported(data: Seq<u8>) -> bool {
    &&& forall|i: int| !relative_part_at(data, i)
    &&& forall|i: int| !long_run_at(data, i)
}

/// The bit pattern that stands for every number that is not a number.
pub const QUIET_NAN: u32 = 0x7fc0_0000;

/// Whether `bits` is the pattern of a NaN: all exponent bits set and some
/// fraction bit set, whatever the sign.
pub open spec fn is_nan(bits: u32) -> bool {
    bits % 0x8000_0000 > 0x7f80_0000
}

/// `bits`, or `QUIET_NAN` in place of any NaN.
pub open spec fn canonical(bits: u32) -> u32 {
    if is_nan(bits) {
        QUIET_NAN
    } else {
        bits
    }
}

/// `numbers` with every NaN written as `QUIET_NAN`.
pub open spec fn canonical_numbers(numbers: Seq<u32>) -> Seq<u32> {
    Seq::new(numbers.len(), |i: int| canonical(numbers[i]))
}

/// `raw` with every NaN written as `QUIET_NAN`.
pub open spec fn canonical_mesh(raw: RawMeshView) -> RawMeshView {
    RawMeshView {
        positions: canonical_numbers(raw.positions),
        texcoords: canonical_numbers(raw.texcoords),
        indices: raw.indices,
    }
}

/// `raws` with every NaN written as `QUIET_NAN`.
pub open spec fn canonical_meshes(raws: Seq<RawMeshView>) -> Seq<RawMeshView> {
    Seq::new(raws.len(), |i: int| canonical_mesh(raws[i]))
}

/// The submeshes that `tobj::load_obj_buf` reads from `data` when it
/// triangulates, unifies indices and is given no materials, with every NaN
/// written as `QUIET_NAN`; `None` where it refuses `data`.
pub uninterp spec fn parsed_obj(data: Seq<u8>) -> Option<Seq<RawMeshView>>;

/// Calls `tobj::load_obj_buf` on `data` with triangulation and a single index
/// per vertex, answering every request for a material library with an empty
/// one. The contract only gives the outcome its name, `parsed_obj`: the same
/// bytes parse to the same submeshes. Which of the patterns of a NaN a
/// division makes is the machine's choice, so the name is given to the
/// submeshes with every NaN written in one way.
///
/// `tobj` works out the offsets of texture coordinates and normals as twice
/// and three times a face's index in unchecked machine arithmetic, which
/// overflows for an index that counts back past the first coordinate or is
/// close to the largest machine word. `source_supported` leaves out every
/// source that can hold such an index.
#[verifier::external_body]
fn parse_obj(data: &[u8]) -> (parsed: Result<Vec<RawMesh>, tobj::LoadError>)
    requires
        source_supported(data@),
    ensures
        match parsed {
            Ok(raws) => parsed_obj(data@) == Some(canonical_meshes(raw_views(raws@))),
            Err(_) => parsed_obj(data@).is_none(),
        },
{
    let options = tobj::LoadOptions { triangulate: true, single_index: true, ..Default::default() };
    let mut reader = data;
    let (models, _) =
        tobj::load_obj_buf(&mut reader, &options, |_| ObjLoader::fake_material_loader())?;
    Ok(
        models.into_iter().map(
            |m| RawMesh {
                positions: m.mesh.positions.iter().map(|x| x.to_bits()).collect(),
                texcoords: m.mesh.texcoords.iter().map(|x| x.to_bits()).collect(),
                indices: m.mesh.indices,
            },
        ).collect(),
    )
}

/// Every vertex that the positions give has its pair of texture coordinates.
pub open spec fn vertex_data_ok(raw: RawMeshView) -> bool {
    2 * (raw.positions.len() / 3) <= raw.texcoords.len()
}

/// The vertices of `raw`: vertex `i` takes positions `3i..3i+3` and texture
/// coordinates `2i..2i+2`, and is white.
pub open spec fn spec_vertices(raw: RawMeshView) -> Seq<Vertex> {
    Seq::new(
        raw.positions.len() / 3,
        |i: int|
            Vertex {
                position: (raw.positions[3 * i], raw.positions[3 * i + 1], raw.positions[3 * i + 2]),
                texture_coordinates: (raw.texcoords[2 * i], raw.texcoords[2 * i + 1]),
                color: (FULL_COMPONENT, FULL_COMPONENT, FULL_COMPONENT),
            },
    )
}

/// Whether `raw` can become a mesh.
pub open spec fn raw_mesh_ok(raw: RawMeshView) -> bool {
    vertex_data_ok(raw) && indices_ok(raw.indices)
}

/// The mesh that `raw` becomes as submesh number `slot` of a model: it is
/// named by that number, written in decimal.
pub open spec fn spec_mesh(raw: RawMeshView, slot: int) -> MeshView {
    MeshView {
        name: decimal_digits(slot as nat),
        vertices: spec_vertices(raw),
        indices: raw.indices,
        number_of_indices: raw.indices.len() as u32,
        texture_index: slot as u32,
    }
}

/// Whether `raws` can become a model.
pub open spec fn raw_model_ok(raws: Seq<RawMeshView>) -> bool {
    &&& raws.len() <= u32::MAX
    &&& forall|i: int| 0 <= i < raws.len() ==> raw_mesh_ok(#[trigger] raws[i])
}

/// The model that `raws` become under the name `name`.
pub open spec fn spec_model(name: Seq<char>, raws: Seq<RawMeshView>) -> ModelView {
    ModelView {
        name,
        meshes: Seq::new(raws.len(), |i: int| spec_mesh(raws[i], i)),
        number_of_texture_buffers: raws.len() as u32,
        lock: false,
    }
}

/// What building a model from parsed submeshes gives.
pub open spec fn spec_build(name: Seq<char>, raws: Seq<RawMeshView>) -> Result<
    ModelView,
    AssetLoadError,
> {
    if raw_model_ok(raws) {
        Ok(spec_model(name, raws))
    } else {
        Err(AssetLoadError::InvalidGeometry)
    }
}

/// What loading the source `data` under the name `name` gives.
pub open spec fn spec_load(name: Seq<char>, data: Seq<u8>) -> Result<ModelView, AssetLoadError> {
    if !source_supported(data) {
        Err(AssetLoadError::Unsupported)
    } else {
        match parsed_obj(data) {
            Some(raws) => spec_build(name, raws),
            None => Err(AssetLoadError::Parse),
        }
    }
}

/// The outcome of a load with the model replaced by its view.
pub open spec fn result_view(loaded: Result<Model, AssetLoadError>) -> Result<
    ModelView,
    AssetLoadError,
> {
    match loaded {
        Ok(model) => Ok(model@),
        Err(e) => Err(e),
    }
}

/// The OBJ importer. It has no state: its functions are namespaced here.
pub struct ObjLoader {}

impl ObjLoader {
    /// The answer to every request of the parser for a material library: no
    /// materials. Textures are named when a model is drawn, not by its source.
    pub fn fake_material_loader() -> (loaded: Result<
        (Vec<tobj::Material>, ahash::AHashMap<String, usize>),
        tobj::LoadError,
    >)
        ensures
            loaded matches Ok(library) && library.0@.len() == 0 && material_index(library.1)
                == no_places(),
    {
        Ok((Vec::new(), new_material_index()))
    }

    /// Whether `data` can be given to the parser.
    pub fn source_is_supported(data: &[u8]) -> (supported: bool)
        ensures
            supported == source_supported(data@),
    {
        let limit: usize = if usize::MAX > 0xffff_ffff {
            18
        } else {
            9
        };
        let mut run: usize = 0;
        let mut i: usize = 0;
        while i < data.len()
            invariant
                i <= data@.len(),
                limit == digit_limit(),
                run <= limit,
                run <= i,
                digit_run_at(data@, i - run, run as int),
                run < i ==> !is_digit(data@[i - run - 1]),
                forall|k: int| k + 1 < i ==> !relative_part_at(data@, k),
                forall|k: int| k + limit + 1 <= i ==> !long_run_at(data@, k),
            decreases data@.len() - i,
        {
            let byte: u8 = data[i];
            if 0x30 <= byte && byte <= 0x39 {
                if run == limit {
                    assert(long_run_at(data@, i - run));
                    return false;
                }
                run += 1;
            } else {
                run = 0;
            }
            if byte == 0x2d && i > 0 && data[i - 1] == 0x2f {
                assert(relative_part_at(data@, i - 1));
                return false;
            }
            assert forall|k: int| k + limit + 1 <= i + 1 implies !long_run_at(data@, k) by {
                if k + limit + 1 == i + 1 && long_run_at(data@, k) {
                    assert(is_digit(data@[i as int]));
                    let first = i + 1 - run;
                    if first > 0 {
                        assert(is_digit(data@[first - 1]));
                    }
                }
            }
            i += 1;
        }
        assert forall|k: int| !long_run_at(data@, k) by {}
        assert forall|k: int| !relative_part_at(data@, k) by {}
        true
    }

    /// `bits`, or `QUIET_NAN` in place of any NaN.
    pub fn canonical_bits(bits: u32) -> (written: u32)
        ensures
            written == canonical(bits),
    {
        if bits % 0x8000_0000 > 0x7f80_0000 {
            QUIET_NAN
        } else {
            bits
        }
    }

    /// `numbers` with every NaN written as `QUIET_NAN`.
    pub fn canonical_list(numbers: &Vec<u32>) -> (written: Vec<u32>)
        ensures
            written@ == canonical_numbers(numbers@),
    {
        let mut written: Vec<u32> = Vec::new();
        let mut i: usize = 0;
        while i < numbers.len()
            invariant
                i <= numbers@.len(),
                written@.len() == i,
                forall|k: int| 0 <= k < i ==> written@[k] == canonical(numbers@[k]),
            decreases numbers@.len() - i,
        {
            written.push(ObjLoader::canonical_bits(numbers[i]));
            i += 1;
        }
        assert(written@ =~= canonical_numbers(numbers@));
        written
    }

    /// `raws` with every NaN written as `QUIET_NAN`.
    pub fn canonical_raw_meshes(raws: Vec<RawMesh>) -> (written: Vec<RawMesh>)
        ensures
            raw_views(written@) == canonical_meshes(raw_views(raws@)),
    {
        let mut written: Vec<RawMesh> = Vec::new();
        let mut i: usize = 0;
        while i < raws.len()
            invariant
                i <= raws@.len(),
                written@.len() == i,
                forall|k: int| 0 <= k < i ==> written@[k]@ == canonical_mesh(raws@[k]@),
            decreases raws@.len() - i,
        {
            let raw = &raws[i];
            let indices = raw.indices.clone();
            assert(indices@ =~= raw.indices@);
            written.push(
                RawMesh {
                    positions: ObjLoader::canonical_list(&raw.positions),
                    texcoords: ObjLoader::canonical_list(&raw.texcoords),
                    indices,
                },
            );
            i += 1;
        }
        assert(raw_views(written@) =~= canonical_meshes(raw_views(raws@)));
        written
    }

    /// Gathers the flat position and texture coordinate lists of `raw` into
    /// vertices, or gives `None` where texture coordinates are missing.
    pub fn build_vertices(raw: &RawMesh) -> (built: Option<Vec<Vertex>>)
        ensures
            vertex_data_ok(raw@) ==> built is Some,
            !vertex_data_ok(raw@) ==> built is None,
            built matches Some(vertices) ==> vertices@ == spec_vertices(raw@),
    {
        let count: usize = raw.positions.len() / 3;
        if raw.texcoords.len() / 2 < count {
            return None;
        }
        let mut vertices: Vec<Vertex> = Vec::new();
        let mut i: usize = 0;
        while i < count
            invariant
                i <= count,
                count == raw.positions@.len() / 3,
                2 * count <= raw.texcoords@.len(),
                raw.positions@.len() <= usize::MAX,
                raw.texcoords@.len() <= usize::MAX,
                vertices@.len() == i,
                forall|k: int| 0 <= k < i ==> #[trigger] vertices@[k] == spec_vertices(raw@)[k],
            decreases count - i,
        {
            assert(i * 3 + 2 < raw.positions@.len());
            assert(i * 2 + 1 < raw.texcoords@.len());
            let vertex = Vertex {
                position: (
                    raw.positions[i * 3],
                    raw.positions[i * 3 + 1],
                    raw.positions[i * 3 + 2],
                ),
                texture_coordinates: (raw.texcoords[i * 2], raw.texcoords[i * 2 + 1]),
                color: (FULL_COMPONENT, FULL_COMPONENT, FULL_COMPONENT),
            };
            vertices.push(vertex);
            i += 1;
        }
        assert(vertices@ =~= spec_vertices(raw@));
        Some(vertices)
    }

    /// Builds the model `name` from parsed submeshes: submesh `i` becomes the
    /// mesh of texture slot `i`, named `i` in decimal. Fails where a submesh lacks texture
    /// coordinates, has an index list that is not whole triangles, or a count
    /// exceeds 32 bits.
    pub fn build_model(name: &str, raws: &Vec<RawMesh>) -> (built: Result<Model, AssetLoadError>)
        ensures
            result_view(built) == spec_build(name@, raw_views(raws@)),
            built matches Ok(model) ==> model.wf() && model@.lock == false && forall|i: int|
                0 <= i < model@.meshes.len() ==> (#[trigger] model@.meshes[i]).indices.len() % 3
                    == 0,
    {
        let count: usize = raws.len();
        if count > 0xffff_ffff {
            return Err(AssetLoadError::InvalidGeometry);
        }
        let mut meshes: Vec<Mesh> = Vec::new();
        let mut w: usize = 0;
        while w < count
            invariant
                w <= count,
                count == raws@.len(),
                count <= u32::MAX,
                meshes@.len() == w,
                forall|i: int| 0 <= i < w ==> raw_mesh_ok(#[trigger] raw_views(raws@)[i]),
                forall|i: int|
                    0 <= i < w ==> (#[trigger] meshes@[i]).wf() && meshes@[i]@ == spec_mesh(
                        raw_views(raws@)[i],
                        i,
                    ),
            decreases count - w,
        {
            let raw = &raws[w];
            assert(raw_views(raws@)[w as int] == raw@);
            let vertices = match ObjLoader::build_vertices(raw) {
                Some(vertices) => vertices,
                None => {
                    return Err(AssetLoadError::InvalidGeometry);
                },
            };
            let indices = raw.indices.clone();
            assert(indices@ =~= raw.indices@);
            let mesh_name = unsigned_decimal_string(w as u32);
            let mesh = match Mesh::new(mesh_name.as_str(), vertices, indices, w as u32) {
                Ok(mesh) => mesh,
                Err(_) => {
                    return Err(AssetLoadError::InvalidGeometry);
                },
            };
            meshes.push(mesh);
            w += 1;
        }
        assert(mesh_views(meshes@) =~= spec_model(name@, raw_views(raws@)).meshes);
        Model::new(name, meshes)
    }

    /// Loads the model `name` from the bytes of an OBJ source. Material
    /// libraries that the source names are not read: textures are named when
    /// the model is drawn. A coordinate that is not a number is stored as
    /// `QUIET_NAN`.
    pub fn load(name: &str, data: &[u8]) -> (loaded: Result<Model, AssetLoadError>)
        ensures
            result_view(loaded) == spec_load(name@, data@),
            loaded matches Ok(model) ==> model.wf() && model@.lock == false && forall|i: int|
                0 <= i < model@.meshes.len() ==> (#[trigger] model@.meshes[i]).indices.len() % 3
                    == 0,
    {
        if !ObjLoader::source_is_supported(data) {
            return Err(AssetLoadError::Unsupported);
        }
        match parse_obj(data) {
            Ok(raws) => ObjLoader::build_model(name, &ObjLoader::canonical_raw_meshes(raws)),
            Err(_) => Err(AssetLoadError::Parse),
        }
    }
}

} // verus!
