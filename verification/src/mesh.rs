//! Turning the playbox's visual mesh inside out, so that its walls are seen
//! from within: every normal is negated and the winding of the indices is
//! inverted.
//!
//! A mesh is held here as the plain data that this touches. A normal's
//! components are kept as the bit patterns of the single-precision numbers
//! the renderer stores, so that negating one is exact: it flips the sign bit.

use bevy::asset::RenderAssetUsages;
use bevy::mesh::{Indices, Mesh, MeshWindingInvertError, PrimitiveTopology};
use vstd::prelude::*;
use crate::error::ConfigError;

verus! {

/// How a mesh's indices form primitives.
#[derive(Clone, Copy, Debug, PartialEq, Eq, Structural)]
pub enum Topology {
    PointList,
    LineList,
    LineStrip,
    TriangleList,
    TriangleStrip,
}

/// A vertex normal, each component as its bit pattern.
#[derive(Clone, Copy, Debug, PartialEq, Eq, Structural)]
pub struct Normal {
    pub x: u32,
    pub y: u32,
    pub z: u32,
}

/// The sign bit of a component.
pub const SIGN_BIT: u32 = 0x8000_0000;

/// What winding and normals a mesh has.
#[derive(Clone, Debug)]
pub struct MeshData {
    pub topology: Topology,
    /// The normal of each vertex, where the mesh has normals.
    pub normals: Option<Vec<Normal>>,
    /// The vertex indices, where the mesh is indexed.
    pub indices: Option<Vec<u32>>,
}

/// A component with its sign bit flipped.
pub open spec fn flipped(bits: u32) -> u32 {
    if bits >= SIGN_BIT {
        (bits - SIGN_BIT) as u32
    } else {
        (bits + SIGN_BIT) as u32
    }
}

/// A normal pointing the other way.
pub open spec fn negated(normal: Normal) -> Normal {
    Normal { x: flipped(normal.x), y: flipped(normal.y), z: flipped(normal.z) }
}

/// A triangle list with the second and third corner of every triangle
/// exchanged.
pub open spec fn triangles_turned(indices: Seq<u32>) -> Seq<u32> {
    Seq::new(
        indices.len(),
        |i: int|
            if i % 3 == 1 {
                indices[i + 1]
            } else if i % 3 == 2 {
                indices[i - 1]
            } else {
                indices[i]
            },
    )
}

/// The indices of a mesh with its winding inverted: in a triangle list the
/// second and third corner of every triangle change places; a line list and
/// the strips are reversed. A point list has no winding, and a list that ends
/// within a primitive is refused.
pub open spec fn winding_inverse(topology: Topology, indices: Seq<u32>) -> Result<
    Seq<u32>,
    ConfigError,
> {
    match topology {
        Topology::TriangleList => if indices.len() % 3 == 0 {
            Ok(triangles_turned(indices))
        } else {
            Err(ConfigError::AbruptIndicesEnd)
        },
        Topology::LineList => if indices.len() % 2 == 0 {
            Ok(indices.reverse())
        } else {
            Err(ConfigError::AbruptIndicesEnd)
        },
        Topology::TriangleStrip | Topology::LineStrip => Ok(indices.reverse()),
        Topology::PointList => Err(ConfigError::WrongTopology),
    }
}

/// Inverts the winding of `indices` with `bevy::mesh::Mesh::invert_winding`,
/// on a mesh of the given topology that holds nothing but these indices.
///
/// Trusted: that the call leaves the indices as `winding_inverse` says, and
/// fails on a point list and on a triangle or line list that ends within a
/// primitive.
#[verifier::external_body]
fn invert_winding(topology: Topology, indices: &Vec<u32>) -> (turned: Result<Vec<u32>, ConfigError>)
    ensures
        match winding_inverse(topology, indices@) {
            Ok(expected) => turned matches Ok(list) && list@ == expected,
            Err(error) => turned == Err::<Vec<u32>, ConfigError>(error),
        },
{
    let primitive = match topology {
        Topology::PointList => PrimitiveTopology::PointList,
        Topology::LineList => PrimitiveTopology::LineList,
        Topology::LineStrip => PrimitiveTopology::LineStrip,
        Topology::TriangleList => PrimitiveTopology::TriangleList,
        Topology::TriangleStrip => PrimitiveTopology::TriangleStrip,
    };
    let mut mesh = Mesh::new(primitive, RenderAssetUsages::default());
    mesh.insert_indices(Indices::U32(indices.clone()));
    match mesh.invert_winding() {
        Ok(()) => Ok(mesh.indices().into_iter().flat_map(Indices::iter).map(|i| i as u32).collect()),
        Err(MeshWindingInvertError::WrongTopology) => Err(ConfigError::WrongTopology),
        Err(MeshWindingInvertError::AbruptIndicesEnd) => Err(ConfigError::AbruptIndicesEnd),
    }
}

impl MeshData {
    /// The normals as a sequence.
    pub open spec fn normals_view(self) -> Option<Seq<Normal>> {
        match self.normals {
            Some(list) => Some(list@),
            None => None,
        }
    }

    /// The indices as a sequence.
    pub open spec fn indices_view(self) -> Option<Seq<u32>> {
        match self.indices {
            Some(list) => Some(list@),
            None => None,
        }
    }
}

/// Every normal of a sequence negated.
pub open spec fn all_negated(normals: Seq<Normal>) -> Seq<Normal> {
    Seq::new(normals.len(), |i: int| negated(normals[i]))
}

/// The normals and indices of a mesh turned inside out. A mesh without
/// normals cannot be turned; one without indices has only its normals
/// negated.
pub open spec fn inside_out(
    topology: Topology,
    normals: Option<Seq<Normal>>,
    indices: Option<Seq<u32>>,
) -> Result<(Seq<Normal>, Option<Seq<u32>>), ConfigError> {
    match normals {
        None => Err(ConfigError::MissingNormals),
        Some(normals) => match indices {
            None => Ok((all_negated(normals), None)),
            Some(indices) => match winding_inverse(topology, indices) {
                Ok(turned) => Ok((all_negated(normals), Some(turned))),
                Err(error) => Err(error),
            },
        },
    }
}

/// Flips the sign bit of a component.
pub fn flip(bits: u32) -> (other: u32)
    ensures
        other == flipped(bits),
{
    if bits >= SIGN_BIT {
        bits - SIGN_BIT
    } else {
        bits + SIGN_BIT
    }
}

/// Turns a mesh inside out: negates every normal and inverts the winding.
/// On an error the mesh is left as it was.
pub fn invert_normals(mesh: &mut MeshData) -> (result: Result<(), ConfigError>)
    ensures
        match inside_out(old(mesh).topology, old(mesh).normals_view(), old(mesh).indices_view()) {
            Ok((normals, indices)) => {
                &&& result is Ok
                &&& final(mesh).topology == old(mesh).topology
                &&& final(mesh).normals_view() == Some(normals)
                &&& final(mesh).indices_view() == indices
            },
            Err(error) => result == Err::<(), ConfigError>(error) && *final(mesh) == *old(mesh),
        },
{
    let mut negated_normals: Vec<Normal> = Vec::new();
    match &mesh.normals {
        None => {
            return Err(ConfigError::MissingNormals);
        },
        Some(normals) => {
            let n = normals.len();
            let mut i: usize = 0;
            while i < n
                invariant
                    n == normals@.len(),
                    0 <= i <= n,
                    negated_normals@.len() == i,
                    forall|k: int| 0 <= k < i ==> negated_normals@[k] == negated(normals@[k]),
                decreases n - i,
            {
                let normal = normals[i];
                negated_normals.push(
                    Normal { x: flip(normal.x), y: flip(normal.y), z: flip(normal.z) },
                );
                i += 1;
            }
            assert(negated_normals@ =~= all_negated(normals@));
        },
    }
    let turned = match &mesh.indices {
        None => None,
        Some(indices) => match invert_winding(mesh.topology, indices) {
            Ok(list) => Some(list),
            Err(error) => {
                return Err(error);
            },
        },
    };
    mesh.normals = Some(negated_normals);
    mesh.indices = turned;
    Ok(())
}

/// Turning a mesh inside out twice gives the mesh back: the normals point as
/// before and the indices stand as before.
pub proof fn lemma_inside_out_twice(
    topology: Topology,
    normals: Seq<Normal>,
    indices: Option<Seq<u32>>,
)
    requires
        inside_out(topology, Some(normals), indices) matches Ok(once),
    ensures
        inside_out(topology, Some(normals), indices) matches Ok(once) && inside_out(
            topology,
            Some(once.0),
            once.1,
        ) == Ok::<(Seq<Normal>, Option<Seq<u32>>), ConfigError>((normals, indices)),
{
    let once = inside_out(topology, Some(normals), indices)->Ok_0;
    assert(all_negated(all_negated(normals)) =~= normals);
    match indices {
        None => {},
        Some(list) => {
            let turned = winding_inverse(topology, list)->Ok_0;
            assert(turned.len() == list.len());
            let back = winding_inverse(topology, turned)->Ok_0;
            match topology {
                Topology::TriangleList => {
                    assert(back =~= list);
                },
                _ => {
                    assert(list.reverse().reverse() =~= list);
                },
            }
        },
    }
}

} // verus!
