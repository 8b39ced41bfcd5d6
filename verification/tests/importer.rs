use render_engine::error::AssetLoadError;
use render_engine::mesh::{Mesh, Vertex, FULL_COMPONENT};
use render_engine::model::Model;
use render_engine::obj_loader::{ObjLoader, RawMesh, QUIET_NAN};

const TRIANGLE: &str = "\
v 0.0 0.0 0.0
v 1.0 0.0 0.0
v 0.0 1.0 0.0
vt 0.0 0.0
vt 1.0 0.0
vt 0.25 0.3
f 1/1 2/2 3/3
";

const QUAD: &str = "\
o plate
v 0 0 0
v 1 0 0
v 1 1 0
v 0 1 0
vt 0 0
vt 1 0
vt 1 1
vt 0 1
f 1/1 2/2 3/3 4/4
";

const TWO_PARTS: &str = "\
o seat
v 0 0 0
v 1 0 0
v 0 1 0
vt 0 0
vt 1 0
vt 0 1
f 1/1 2/2 3/3
o back
v 0 0 1
v 1 0 1
v 0 1 1
f 4/1 5/2 6/3
f 6/3 5/2 4/1
";

const WHITE: (u32, u32, u32) = (FULL_COMPONENT, FULL_COMPONENT, FULL_COMPONENT);

#[test]
fn full_component_is_the_number_one() {
    assert_eq!(f32::from_bits(FULL_COMPONENT), 1.0);
}

fn bits(x: f32) -> u32 {
    x.to_bits()
}

#[test]
fn load_triangle_gives_one_mesh() {
    let model = ObjLoader::load("triangle.obj", TRIANGLE.as_bytes()).unwrap();
    assert_eq!(model.get_name(), "triangle.obj");
    assert_eq!(model.get_meshes().len(), 1);
    assert_eq!(model.get_number_of_texture_buffers(), 1);
    assert!(!model.is_locked());
    let mesh = &model.get_meshes()[0];
    assert_eq!(mesh.get_name(), "0");
    assert_eq!(mesh.get_texture_index(), 0);
    assert_eq!(mesh.get_indices(), &vec![0u32, 1, 2]);
    assert_eq!(mesh.get_number_of_indices(), 3);
    assert_eq!(mesh.get_vertices().len(), 3);
}

#[test]
fn load_keeps_positions_and_texture_coordinates_as_read() {
    let model = ObjLoader::load("triangle.obj", TRIANGLE.as_bytes()).unwrap();
    let vertices = model.get_meshes()[0].get_vertices();
    assert_eq!(
        vertices[0],
        Vertex { position: (bits(0.0), bits(0.0), bits(0.0)), texture_coordinates: (bits(0.0), bits(0.0)), color: WHITE }
    );
    assert_eq!(
        vertices[1],
        Vertex { position: (bits(1.0), bits(0.0), bits(0.0)), texture_coordinates: (bits(1.0), bits(0.0)), color: WHITE }
    );
    assert_eq!(
        vertices[2],
        Vertex { position: (bits(0.0), bits(1.0), bits(0.0)), texture_coordinates: (bits(0.25), bits(0.3)), color: WHITE }
    );
}

#[test]
fn stored_v_turns_to_one_minus_v_on_the_way_to_the_gpu() {
    let model = ObjLoader::load("triangle.obj", TRIANGLE.as_bytes()).unwrap();
    let v = f32::from_bits(model.get_meshes()[0].get_vertices()[2].texture_coordinates.1);
    assert_eq!(v, 0.3);
    assert_eq!(1.0 - v, 0.7);
}

#[test]
fn quad_is_triangulated() {
    let model = ObjLoader::load("plate", QUAD.as_bytes()).unwrap();
    let mesh = &model.get_meshes()[0];
    assert_eq!(mesh.get_indices(), &vec![0u32, 1, 2, 0, 2, 3]);
    assert_eq!(mesh.get_number_of_indices() % 3, 0);
    assert_eq!(mesh.get_vertices().len(), 4);
}

#[test]
fn every_imported_mesh_has_whole_triangles() {
    for source in [TRIANGLE, QUAD, TWO_PARTS] {
        let model = ObjLoader::load("m", source.as_bytes()).unwrap();
        for mesh in model.get_meshes() {
            assert_eq!(mesh.get_indices().len() % 3, 0);
            assert_eq!(mesh.get_number_of_indices() as usize, mesh.get_indices().len());
        }
    }
}

#[test]
fn submeshes_take_their_slots_in_order() {
    let model = ObjLoader::load("chair.obj", TWO_PARTS.as_bytes()).unwrap();
    assert_eq!(model.get_meshes().len(), 2);
    assert_eq!(model.get_number_of_texture_buffers(), 2);
    assert_eq!(model.get_meshes()[0].get_texture_index(), 0);
    assert_eq!(model.get_meshes()[1].get_texture_index(), 1);
    assert_eq!(model.get_meshes()[0].get_number_of_indices(), 3);
    assert_eq!(model.get_meshes()[1].get_number_of_indices(), 6);
    assert_eq!(model.get_meshes()[0].get_name(), "0");
    assert_eq!(model.get_meshes()[1].get_name(), "1");
    assert_eq!(model.get_name(), "chair.obj");
}

#[test]
fn malformed_source_is_a_parse_error() {
    assert_eq!(ObjLoader::load("bad", b"v 1.0 2.0\n").err(), Some(AssetLoadError::Parse));
    assert_eq!(ObjLoader::load("bad", b"v 0 0 0\nf 1 2 3\n").err(), Some(AssetLoadError::Parse));
    assert_eq!(ObjLoader::load("bad", &[0xff, 0xfe, 0x0a]).err(), Some(AssetLoadError::Parse));
}

#[test]
fn source_without_texture_coordinates_is_invalid_geometry() {
    let source = "v 0 0 0\nv 1 0 0\nv 0 1 0\nf 1 2 3\n";
    assert_eq!(ObjLoader::load("bare", source.as_bytes()).err(), Some(AssetLoadError::InvalidGeometry));
}

#[test]
fn material_lines_are_passed_over() {
    let source = format!("mtllib chair.mtl\nusemtl wood\n{}", TRIANGLE);
    let model = ObjLoader::load("chair.obj", source.as_bytes()).unwrap();
    assert_eq!(model.get_meshes().len(), 1);
}

#[test]
fn build_vertices_groups_flat_lists() {
    let raw = RawMesh { positions: vec![1, 2, 3, 4, 5, 6, 7], texcoords: vec![10, 11, 12, 13, 14], indices: vec![] };
    let vertices = ObjLoader::build_vertices(&raw).unwrap();
    assert_eq!(
        vertices,
        vec![
            Vertex { position: (1, 2, 3), texture_coordinates: (10, 11), color: WHITE },
            Vertex { position: (4, 5, 6), texture_coordinates: (12, 13), color: WHITE },
        ]
    );
}

#[test]
fn build_vertices_refuses_missing_texture_coordinates() {
    let raw = RawMesh { positions: vec![1, 2, 3, 4, 5, 6], texcoords: vec![10, 11, 12], indices: vec![] };
    assert!(ObjLoader::build_vertices(&raw).is_none());
}

#[test]
fn build_model_refuses_indices_that_are_not_triangles() {
    let good = RawMesh { positions: vec![0; 9], texcoords: vec![0; 6], indices: vec![0, 1, 2] };
    let bad = RawMesh { positions: vec![0; 9], texcoords: vec![0; 6], indices: vec![0, 1, 2, 0] };
    assert_eq!(ObjLoader::build_model("m", &vec![good, bad]).err(), Some(AssetLoadError::InvalidGeometry));
}

#[test]
fn build_model_of_nothing_is_an_empty_model() {
    let model = ObjLoader::build_model("void", &Vec::new()).unwrap();
    assert_eq!(model.get_name(), "void");
    assert_eq!(model.get_meshes().len(), 0);
    assert_eq!(model.get_number_of_texture_buffers(), 0);
}

#[test]
fn mesh_new_checks_the_index_list() {
    assert_eq!(Mesh::new("m", vec![], vec![0, 1], 0).err(), Some(AssetLoadError::InvalidGeometry));
    let mesh = Mesh::new("m", vec![], vec![0, 1, 2, 2, 1, 0], 4).unwrap();
    assert_eq!(mesh.get_number_of_indices(), 6);
    assert_eq!(mesh.get_texture_index(), 4);
    assert_eq!(mesh.get_name(), "m");
}

#[test]
fn model_new_wants_slots_in_order() {
    let first = Mesh::new("m", vec![], vec![], 0).unwrap();
    let second = Mesh::new("m", vec![], vec![], 1).unwrap();
    let model = Model::new("m", vec![first, second]).unwrap();
    assert_eq!(model.get_number_of_texture_buffers(), 2);
    let stray = Mesh::new("m", vec![], vec![], 3).unwrap();
    assert_eq!(Model::new("m", vec![stray]).err(), Some(AssetLoadError::InvalidGeometry));
}

#[test]
fn model_lock_sets_only_the_flag() {
    let mut model = ObjLoader::load("triangle.obj", TRIANGLE.as_bytes()).unwrap();
    model.lock();
    assert!(model.is_locked());
    assert_eq!(model.get_meshes().len(), 1);
    assert_eq!(model.get_name(), "triangle.obj");
}

#[test]
fn source_with_relative_texture_or_normal_index_is_unsupported() {
    let source = "v 0 0 0\nvt 0 0\nvn 0 0 1\nf 1/-3/1 1/-3/1 1/-3/1\n";
    assert_eq!(ObjLoader::load("far", source.as_bytes()).err(), Some(AssetLoadError::Unsupported));
    let source = "v 0 0 0\nvt 0 0\nvn 0 0 1\nf 1//-1 1//-1 1//-1\n";
    assert_eq!(ObjLoader::load("near", source.as_bytes()).err(), Some(AssetLoadError::Unsupported));
}

#[test]
fn source_with_overlong_number_is_unsupported() {
    let source = "v 0 0 0\nvt 0 0\nvn 0 0 1\nf 1/1/9223372036854775807 1/1/1 1/1/1\n";
    assert_eq!(ObjLoader::load("huge", source.as_bytes()).err(), Some(AssetLoadError::Unsupported));
    let source = "v 0 0 0\nvt 0 0\nf -9223372036854775808/1 1/1 1/1\n";
    assert_eq!(ObjLoader::load("least", source.as_bytes()).err(), Some(AssetLoadError::Unsupported));
}

#[test]
fn largest_supported_index_is_a_parse_error_not_a_panic() {
    let source = "v 0 0 0\nvt 0 0\nvn 0 0 1\nf 1/999999999/999999999 1/1/1 1/1/1\n";
    assert_eq!(ObjLoader::load("out", source.as_bytes()).err(), Some(AssetLoadError::Parse));
    let source = "v 0 0 0\nvt 0 0\nvn 0 0 1\nf -5/1/1 1/1/1 1/1/1\n";
    assert_eq!(ObjLoader::load("back", source.as_bytes()).err(), Some(AssetLoadError::Parse));
}

#[test]
fn relative_position_index_is_supported() {
    let source = "v 0 0 0\nv 1 0 0\nv 0 1 0\nvt 0 0\nf -3/1 -2/1 -1/1\n";
    let model = ObjLoader::load("rel", source.as_bytes()).unwrap();
    assert_eq!(model.get_meshes()[0].get_indices(), &vec![0u32, 1, 2]);
}

#[test]
fn source_is_supported_looks_for_slash_minus_and_long_digit_runs() {
    assert!(ObjLoader::source_is_supported(b""));
    assert!(ObjLoader::source_is_supported(b"v -1.5 -2 3\nf -1/2/3 1/2/3 1/2/3\n"));
    assert!(!ObjLoader::source_is_supported(b"f 1/-2 1/1 1/1"));
    assert!(!ObjLoader::source_is_supported(b"/-"));
    assert!(ObjLoader::source_is_supported(b"-/"));
    if usize::MAX as u128 > 0xffff_ffff {
        assert!(ObjLoader::source_is_supported(b"123456789012345678"));
        assert!(ObjLoader::source_is_supported(b"123456789.123456789012345678 "));
        assert!(!ObjLoader::source_is_supported(b"1234567890123456789"));
        assert!(!ObjLoader::source_is_supported(b"v 0.1234567890123456789"));
    }
}

#[test]
fn index_bytes_are_the_memory_of_the_indices() {
    let mesh = Mesh::new("m", vec![], vec![0, 1, 2, 0x0102_0304, 65536, 7], 0).unwrap();
    let mut expected = Vec::new();
    for index in mesh.get_indices() {
        expected.extend_from_slice(&index.to_ne_bytes());
    }
    assert_eq!(mesh.get_index_bytes(), expected.as_slice());
    assert_eq!(mesh.get_index_bytes().len(), 24);
    let word = [mesh.get_index_bytes()[12], mesh.get_index_bytes()[13], mesh.get_index_bytes()[14], mesh.get_index_bytes()[15]];
    assert!(word == [4, 3, 2, 1] || word == [1, 2, 3, 4]);
}

#[test]
fn index_bytes_of_no_indices_are_none() {
    let mesh = Mesh::new("m", vec![], vec![], 0).unwrap();
    assert!(mesh.get_index_bytes().is_empty());
}

#[test]
fn fake_material_loader_gives_no_materials() {
    let (materials, places) = ObjLoader::fake_material_loader().unwrap();
    assert!(materials.is_empty());
    assert!(places.is_empty());
}

#[test]
fn meshes_are_named_by_their_place_in_decimal() {
    let raws: Vec<RawMesh> =
        (0..12).map(|_| RawMesh { positions: vec![], texcoords: vec![], indices: vec![] }).collect();
    let model = ObjLoader::build_model("many", &raws).unwrap();
    assert_eq!(model.get_meshes()[9].get_name(), "9");
    assert_eq!(model.get_meshes()[10].get_name(), "10");
    assert_eq!(model.get_meshes()[11].get_name(), "11");
    assert_eq!(model.get_meshes()[11].get_texture_index(), 11);
}

#[test]
fn canonical_bits_writes_every_nan_in_one_way() {
    assert!(f32::from_bits(QUIET_NAN).is_nan());
    assert_eq!(ObjLoader::canonical_bits(0xffc0_0000), QUIET_NAN);
    assert_eq!(ObjLoader::canonical_bits(0x7f80_0001), QUIET_NAN);
    assert_eq!(ObjLoader::canonical_bits(0xffff_ffff), QUIET_NAN);
    assert_eq!(ObjLoader::canonical_bits(QUIET_NAN), QUIET_NAN);
    assert_eq!(ObjLoader::canonical_bits(0x7f80_0000), 0x7f80_0000);
    assert_eq!(ObjLoader::canonical_bits(0xff80_0000), 0xff80_0000);
    assert_eq!(ObjLoader::canonical_bits(0), 0);
    assert_eq!(ObjLoader::canonical_bits(0x8000_0000), 0x8000_0000);
    assert_eq!(ObjLoader::canonical_bits(bits(-1.5)), bits(-1.5));
    for x in [f32::NAN, -f32::NAN, f32::INFINITY, f32::NEG_INFINITY, 0.0, -0.0, 1.0, f32::MAX, f32::MIN_POSITIVE] {
        assert_eq!(ObjLoader::canonical_bits(x.to_bits()) == QUIET_NAN, x.is_nan());
    }
}

#[test]
fn canonical_list_keeps_numbers_and_order() {
    let numbers = vec![bits(1.0), 0xffc0_0001, bits(-2.0), 0x7fff_ffff];
    assert_eq!(ObjLoader::canonical_list(&numbers), vec![bits(1.0), QUIET_NAN, bits(-2.0), QUIET_NAN]);
}

#[test]
fn canonical_raw_meshes_keeps_indices() {
    let raws = vec![RawMesh { positions: vec![0xffc0_0000, 1], texcoords: vec![0x7f80_0002], indices: vec![3, 2, 1] }];
    let written = ObjLoader::canonical_raw_meshes(raws);
    assert_eq!(written.len(), 1);
    assert_eq!(written[0].positions, vec![QUIET_NAN, 1]);
    assert_eq!(written[0].texcoords, vec![QUIET_NAN]);
    assert_eq!(written[0].indices, vec![3, 2, 1]);
}

#[test]
fn coordinate_that_is_not_a_number_is_stored_in_one_way() {
    let source = "v inf inf inf inf\nv NaN 0 0\nv 0 1 0\nvt 0 0\nf 1/1 2/1 3/1\n";
    let model = ObjLoader::load("odd", source.as_bytes()).unwrap();
    let vertices = model.get_meshes()[0].get_vertices();
    assert_eq!(vertices[0].position, (QUIET_NAN, QUIET_NAN, QUIET_NAN));
    assert_eq!(vertices[1].position, (QUIET_NAN, bits(0.0), bits(0.0)));
    assert_eq!(vertices[2].position, (bits(0.0), bits(1.0), bits(0.0)));
}
