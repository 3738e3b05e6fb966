//! Collision-mesh asset records: triangles and tree nodes.
use crate::byteread::{be16_at, be32_at, u16_be_at, u32_be_at};
use vstd::prelude::*;

verus! {

/// The collision-mesh header: the bounding box (as raw float bits) and
/// the table locations and counts. A zero in any required offset or count
/// is rejected with the matching error.
#[derive(Copy, Clone, Debug, PartialEq)]
pub struct Header {
    pub version_flag: u32,
    pub min_x: u32,
    pub min_y: u32,
    pub min_z: u32,
    pub max_x: u32,
    pub max_y: u32,
    pub max_z: u32,
    pub vertices_offset: u32,
    pub normal_maybe_offset: u32,
    pub triangle_offset: u32,
    pub node_offset: u32,
    pub next_mesh_offset: u32,
    pub vertices_count: u32,
    pub normal_count: u32,
    pub triangle_count: u32,
}

impl Header {
    /// Number of bytes this record occupies.
    pub const LENGTH: usize = 140;

    /// The decoded record: each field read big-endian at its offset.
    pub open spec fn spec_value(d: Seq<u8>) -> Header
        recommends
            d.len() >= 140,
    {
        (Header {
            version_flag: be32_at(d, 60),
            min_x: be32_at(d, 64),
            min_y: be32_at(d, 68),
            min_z: be32_at(d, 72),
            max_x: be32_at(d, 80),
            max_y: be32_at(d, 84),
            max_z: be32_at(d, 88),
            vertices_offset: be32_at(d, 96),
            normal_maybe_offset: be32_at(d, 100),
            triangle_offset: be32_at(d, 104),
            node_offset: be32_at(d, 108),
            next_mesh_offset: be32_at(d, 124),
            vertices_count: be32_at(d, 128),
            normal_count: be32_at(d, 132),
            triangle_count: be32_at(d, 136),
        })
    }

    /// Every required count field is nonzero.
    pub open spec fn spec_ok(d: Seq<u8>) -> bool {
        &&& be32_at(d, 96) != 0
        &&& be32_at(d, 100) != 0
        &&& be32_at(d, 104) != 0
        &&& be32_at(d, 108) != 0
        &&& be32_at(d, 128) != 0
        &&& be32_at(d, 132) != 0
        &&& be32_at(d, 136) != 0
    }

    /// Decodes the record; a zero in a required count field is the
    /// named error, checked in field order.
    pub fn from_bytes(data: &[u8]) -> (r: Result<Self, crate::ParseError>)
        requires
            data@.len() >= 140,
        ensures
            r is Ok <==> Self::spec_ok(data@),
            Self::spec_ok(data@) ==> r == Ok::<Self, crate::ParseError>(Self::spec_value(data@)),
            be32_at(data@, 96) == 0 ==> r == Err::<Self, crate::ParseError>(crate::ParseError::ZeroOffset),
            be32_at(data@, 96) != 0 && be32_at(data@, 100) == 0 ==> r == Err::<Self, crate::ParseError>(crate::ParseError::ZeroOffset),
            be32_at(data@, 96) != 0 && be32_at(data@, 100) != 0 && be32_at(data@, 104) == 0 ==> r == Err::<Self, crate::ParseError>(crate::ParseError::ZeroOffset),
            be32_at(data@, 96) != 0 && be32_at(data@, 100) != 0 && be32_at(data@, 104) != 0 && be32_at(data@, 108) == 0 ==> r == Err::<Self, crate::ParseError>(crate::ParseError::ZeroOffset),
            be32_at(data@, 96) != 0 && be32_at(data@, 100) != 0 && be32_at(data@, 104) != 0 && be32_at(data@, 108) != 0 && be32_at(data@, 128) == 0 ==> r == Err::<Self, crate::ParseError>(crate::ParseError::ZeroVertices),
            be32_at(data@, 96) != 0 && be32_at(data@, 100) != 0 && be32_at(data@, 104) != 0 && be32_at(data@, 108) != 0 && be32_at(data@, 128) != 0 && be32_at(data@, 132) == 0 ==> r == Err::<Self, crate::ParseError>(crate::ParseError::ZeroNormals),
            be32_at(data@, 96) != 0 && be32_at(data@, 100) != 0 && be32_at(data@, 104) != 0 && be32_at(data@, 108) != 0 && be32_at(data@, 128) != 0 && be32_at(data@, 132) != 0 && be32_at(data@, 136) == 0 ==> r == Err::<Self, crate::ParseError>(crate::ParseError::ZeroTriangles),
    {
        let v = Header {
            version_flag: u32_be_at(data, 60),
            min_x: u32_be_at(data, 64),
            min_y: u32_be_at(data, 68),
            min_z: u32_be_at(data, 72),
            max_x: u32_be_at(data, 80),
            max_y: u32_be_at(data, 84),
            max_z: u32_be_at(data, 88),
            vertices_offset: u32_be_at(data, 96),
            normal_maybe_offset: u32_be_at(data, 100),
            triangle_offset: u32_be_at(data, 104),
            node_offset: u32_be_at(data, 108),
            next_mesh_offset: u32_be_at(data, 124),
            vertices_count: u32_be_at(data, 128),
            normal_count: u32_be_at(data, 132),
            triangle_count: u32_be_at(data, 136),
        };
        if v.vertices_offset == 0 {
            return Err(crate::ParseError::ZeroOffset);
        }
        if v.normal_maybe_offset == 0 {
            return Err(crate::ParseError::ZeroOffset);
        }
        if v.triangle_offset == 0 {
            return Err(crate::ParseError::ZeroOffset);
        }
        if v.node_offset == 0 {
            return Err(crate::ParseError::ZeroOffset);
        }
        if v.vertices_count == 0 {
            return Err(crate::ParseError::ZeroVertices);
        }
        if v.normal_count == 0 {
            return Err(crate::ParseError::ZeroNormals);
        }
        if v.triangle_count == 0 {
            return Err(crate::ParseError::ZeroTriangles);
        }
        Ok(v)
    }
}

/// One node of the collision-mesh tree, kept as its raw twelve bytes: the
/// format of the node words was not reverse-engineered.
#[derive(Copy, Clone, Debug, PartialEq)]
pub struct MeshNode {
    pub data: (u32, u32, u32),
}

impl MeshNode {
    /// Number of bytes this record occupies.
    pub const LENGTH: usize = 12;

    /// The decoded record: the three raw words.
    pub open spec fn spec_value(d: Seq<u8>) -> MeshNode
        recommends
            d.len() >= 12,
    {
        (MeshNode { data: (be32_at(d, 0), be32_at(d, 4), be32_at(d, 8)) })
    }

    /// Decodes the record from the start of `data`.
    pub fn from_bytes(data: &[u8]) -> (r: Self)
        requires
            data@.len() >= 12,
        ensures
            r == Self::spec_value(data@),
    {
        MeshNode { data: (u32_be_at(data, 0), u32_be_at(data, 4), u32_be_at(data, 8)) }
    }
}

/// One collision triangle: three vertex indices and a normal index.
#[derive(Copy, Clone, Debug, PartialEq)]
pub struct Triangle {
    pub x_idx: u16,
    pub y_idx: u16,
    pub z_idx: u16,
    pub normal_idx: u16,
}

impl Triangle {
    /// Number of bytes this record occupies.
    pub const LENGTH: usize = 16;

    /// The decoded record: each field read big-endian at its offset.
    pub open spec fn spec_value(d: Seq<u8>) -> Triangle
        recommends
            d.len() >= 16,
    {
        (Triangle {
            x_idx: be16_at(d, 0),
            y_idx: be16_at(d, 2),
            z_idx: be16_at(d, 4),
            normal_idx: be16_at(d, 6),
        })
    }

    /// Decodes the record from the start of `data`.
    pub fn from_bytes(data: &[u8]) -> (r: Self)
        requires
            data@.len() >= 16,
        ensures
            r == Self::spec_value(data@),
    {
        Triangle {
            x_idx: u16_be_at(data, 0),
            y_idx: u16_be_at(data, 2),
            z_idx: u16_be_at(data, 4),
            normal_idx: u16_be_at(data, 6),
        }
    }
}
} // verus!
