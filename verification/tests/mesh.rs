use bevy::math::primitives::Cuboid;
use bevy::mesh::{Mesh, PrimitiveTopology, VertexAttributeValues};
use dicebox::error::ConfigError;
use dicebox::mesh::{flip, invert_normals, MeshData, Normal, Topology};

fn bits(x: f32, y: f32, z: f32) -> Normal {
    Normal { x: x.to_bits(), y: y.to_bits(), z: z.to_bits() }
}

#[test]
fn triangle_list_swaps_second_and_third_corner() {
    let mut mesh = MeshData {
        topology: Topology::TriangleList,
        normals: Some(vec![bits(0.0, 1.0, 0.0), bits(-1.0, 0.0, 0.5)]),
        indices: Some(vec![0, 1, 2, 2, 3, 0]),
    };
    assert_eq!(invert_normals(&mut mesh), Ok(()));
    assert_eq!(mesh.indices, Some(vec![0, 2, 1, 2, 0, 3]));
    assert_eq!(mesh.normals, Some(vec![bits(-0.0, -1.0, -0.0), bits(1.0, -0.0, -0.5)]));
    assert_eq!(mesh.topology, Topology::TriangleList);
}

fn indexed(topology: Topology, indices: Vec<u32>) -> MeshData {
    MeshData { topology, normals: Some(vec![bits(0.0, 0.0, 1.0)]), indices: Some(indices) }
}

#[test]
fn negating_flips_only_the_sign_bit() {
    assert_eq!(flip(0), 0x8000_0000);
    assert_eq!(flip(0x8000_0000), 0);
    assert_eq!(flip(1.0f32.to_bits()), (-1.0f32).to_bits());
    assert_eq!(flip((-0.25f32).to_bits()), 0.25f32.to_bits());
    assert_eq!(flip(u32::MAX), 0x7FFF_FFFF);
    assert_eq!(flip(f32::INFINITY.to_bits()), f32::NEG_INFINITY.to_bits());
    for value in [0.0f32, -0.0, 1.5, -3.25e-12, 7.0e30, f32::MIN_POSITIVE, f32::MAX] {
        assert_eq!(flip(value.to_bits()), (-value).to_bits());
        assert_eq!(flip(flip(value.to_bits())), value.to_bits());
    }
}

#[test]
fn line_list_is_reversed() {
    let mut mesh = indexed(Topology::LineList, vec![0, 1, 2, 3]);
    assert_eq!(invert_normals(&mut mesh), Ok(()));
    assert_eq!(mesh.indices, Some(vec![3, 2, 1, 0]));
}

#[test]
fn strips_are_reversed() {
    let mut lines = indexed(Topology::LineStrip, vec![0, 1, 2]);
    assert_eq!(invert_normals(&mut lines), Ok(()));
    assert_eq!(lines.indices, Some(vec![2, 1, 0]));
    let mut triangles = indexed(Topology::TriangleStrip, vec![4, 5, 6, 7]);
    assert_eq!(invert_normals(&mut triangles), Ok(()));
    assert_eq!(triangles.indices, Some(vec![7, 6, 5, 4]));
}

#[test]
fn point_list_has_no_winding() {
    let mut mesh = indexed(Topology::PointList, vec![0, 1, 2]);
    let before = mesh.clone();
    assert_eq!(invert_normals(&mut mesh), Err(ConfigError::WrongTopology));
    assert_eq!(mesh.indices, before.indices);
    assert_eq!(mesh.normals, before.normals);
}

#[test]
fn triangle_list_that_ends_early_is_refused() {
    let mut mesh = indexed(Topology::TriangleList, vec![0, 1, 2, 3]);
    let before = mesh.clone();
    assert_eq!(invert_normals(&mut mesh), Err(ConfigError::AbruptIndicesEnd));
    assert_eq!(mesh.indices, before.indices);
    assert_eq!(mesh.normals, before.normals);
}

#[test]
fn line_list_that_ends_early_is_refused() {
    let mut mesh = indexed(Topology::LineList, vec![0, 1, 2]);
    assert_eq!(invert_normals(&mut mesh), Err(ConfigError::AbruptIndicesEnd));
    assert_eq!(mesh.indices, Some(vec![0, 1, 2]));
}

#[test]
fn mesh_without_normals_is_refused() {
    let mut mesh =
        MeshData { topology: Topology::TriangleList, normals: None, indices: Some(vec![0, 1, 2]) };
    assert_eq!(invert_normals(&mut mesh), Err(ConfigError::MissingNormals));
    assert_eq!(mesh.indices, Some(vec![0, 1, 2]));
    assert_eq!(mesh.normals, None);
}

#[test]
fn mesh_without_indices_has_its_normals_negated() {
    let mut mesh = MeshData {
        topology: Topology::PointList,
        normals: Some(vec![bits(1.0, 2.0, 3.0)]),
        indices: None,
    };
    assert_eq!(invert_normals(&mut mesh), Ok(()));
    assert_eq!(mesh.normals, Some(vec![bits(-1.0, -2.0, -3.0)]));
    assert_eq!(mesh.indices, None);
}

#[test]
fn empty_mesh_turns_into_itself() {
    let mut mesh =
        MeshData { topology: Topology::TriangleList, normals: Some(vec![]), indices: Some(vec![]) };
    assert_eq!(invert_normals(&mut mesh), Ok(()));
    assert_eq!(mesh.normals, Some(vec![]));
    assert_eq!(mesh.indices, Some(vec![]));
}

#[test]
fn turning_twice_restores_the_mesh() {
    let mut mesh = MeshData {
        topology: Topology::TriangleList,
        normals: Some(vec![bits(0.0, 1.0, 0.0), bits(0.6, -0.8, 0.0)]),
        indices: Some(vec![0, 1, 2, 3, 4, 5, 6, 7, 8]),
    };
    let before = mesh.clone();
    invert_normals(&mut mesh).unwrap();
    assert_ne!(mesh.indices, before.indices);
    assert_ne!(mesh.normals, before.normals);
    invert_normals(&mut mesh).unwrap();
    assert_eq!(mesh.indices, before.indices);
    assert_eq!(mesh.normals, before.normals);
}

#[test]
fn unit_cube_turns_as_the_engine_turns_it() {
    let mut theirs = Mesh::from(Cuboid::default());
    let normals = match theirs.attribute(Mesh::ATTRIBUTE_NORMAL) {
        Some(VertexAttributeValues::Float32x3(list)) => list.clone(),
        _ => panic!("the cube has normals"),
    };
    let indices: Vec<u32> = theirs.indices().unwrap().iter().map(|i| i as u32).collect();
    assert_eq!(theirs.primitive_topology(), PrimitiveTopology::TriangleList);
    let mut ours = MeshData {
        topology: Topology::TriangleList,
        normals: Some(normals.iter().map(|n| bits(n[0], n[1], n[2])).collect()),
        indices: Some(indices),
    };
    assert_eq!(invert_normals(&mut ours), Ok(()));

    theirs.invert_winding().unwrap();
    let turned: Vec<u32> = theirs.indices().unwrap().iter().map(|i| i as u32).collect();
    assert_eq!(ours.indices, Some(turned));
    let negated: Vec<Normal> = normals.iter().map(|n| bits(-n[0], -n[1], -n[2])).collect();
    assert_eq!(ours.normals, Some(negated));
    assert_eq!(ours.normals.unwrap().len(), 24);
}
