//! The actor asset: vertex attribute records and the geometry headers the
//! model exporters read.
use crate::byteread::{be16_at, be32_at, u16_be_at, u32_be_at, u8_at};
use vstd::prelude::*;

pub mod experimental;

verus! {

/// One vertex color, four bytes in RGBA order.
#[derive(Copy, Clone, Debug, PartialEq)]
pub struct Color {
    pub r: u8,
    pub g: u8,
    pub b: u8,
    pub a: u8,
}

impl Color {
    /// Number of bytes this record occupies.
    pub const LENGTH: usize = 4;

    /// The decoded record: each field read big-endian at its offset.
    pub open spec fn spec_value(d: Seq<u8>) -> Color
        recommends
            d.len() >= 4,
    {
        (Color {
            r: d[0],
            g: d[1],
            b: d[2],
            a: d[3],
        })
    }

    /// Decodes the record from the start of `data`.
    pub fn from_bytes(data: &[u8]) -> (r: Self)
        requires
            data@.len() >= 4,
        ensures
            r == Self::spec_value(data@),
    {
        Color {
            r: u8_at(data, 0),
            g: u8_at(data, 1),
            b: u8_at(data, 2),
            a: u8_at(data, 3),
        }
    }
}
/// The two-halfword header in front of an index run.
#[derive(Copy, Clone, Debug, PartialEq)]
pub struct IndexHeader {
    pub magic: u16,
    pub count: u16,
}

impl IndexHeader {
    /// Number of bytes this record occupies.
    pub const LENGTH: usize = 4;

    /// The decoded record: each field read big-endian at its offset.
    pub open spec fn spec_value(d: Seq<u8>) -> IndexHeader
        recommends
            d.len() >= 4,
    {
        (IndexHeader {
            magic: be16_at(d, 0),
            count: be16_at(d, 2),
        })
    }

    /// Decodes the record from the start of `data`.
    pub fn from_bytes(data: &[u8]) -> (r: Self)
        requires
            data@.len() >= 4,
        ensures
            r == Self::spec_value(data@),
    {
        IndexHeader {
            magic: u16_be_at(data, 0),
            count: u16_be_at(data, 2),
        }
    }
}
/// One vertex index tuple. Three stored widths exist: eight bytes (the
/// plain form), nine (with a trailing tag byte), and sixteen (with a
/// leading halfword and wider spacing).
#[derive(Copy, Clone, Debug, PartialEq)]
pub struct Index {
    pub unk1: u16,
    pub pos_idx: u16,
    pub normal_idx: u16,
    pub texcoord_idx: u16,
    pub color_idx: u16,
    pub tag: u8,
}

impl Index {
    /// Number of bytes the plain form occupies.
    pub const LENGTH: usize = 0x8;

    /// The decoded index: the stored width of the slice selects the layout.
    pub open spec fn spec_value(d: Seq<u8>) -> Index
        recommends
            d.len() >= 8,
    {
        if d.len() == 0x10 {
            (Index {
                unk1: be16_at(d, 0),
                pos_idx: be16_at(d, 2),
                normal_idx: be16_at(d, 4),
                color_idx: be16_at(d, 8),
                texcoord_idx: be16_at(d, 10),
                tag: 0,
            })
        } else {
            (Index {
                unk1: 0,
                pos_idx: be16_at(d, 0),
                normal_idx: be16_at(d, 2),
                color_idx: be16_at(d, 4),
                texcoord_idx: be16_at(d, 6),
                tag: if d.len() == 0x9 {
                    d[8]
                } else {
                    0
                },
            })
        }
    }

    /// Decodes one index tuple from the whole of `data`.
    pub fn from_bytes(input: &[u8]) -> (r: Self)
        requires
            input@.len() >= 8,
        ensures
            r == Self::spec_value(input@),
    {
        if input.len() == 0x10 {
            Index {
                unk1: u16_be_at(input, 0),
                pos_idx: u16_be_at(input, 2),
                normal_idx: u16_be_at(input, 4),
                color_idx: u16_be_at(input, 8),
                texcoord_idx: u16_be_at(input, 10),
                tag: 0,
            }
        } else {
            Index {
                unk1: 0,
                pos_idx: u16_be_at(input, 0),
                normal_idx: u16_be_at(input, 2),
                color_idx: u16_be_at(input, 4),
                texcoord_idx: u16_be_at(input, 6),
                tag: if input.len() == 0x9 {
                    u8_at(input, 8)
                } else {
                    0
                },
            }
        }
    }
}

/// The part of an actor geometry header the exporters read: the node count
/// and the two buffer locations.
#[derive(Copy, Clone, Debug, PartialEq)]
pub struct ActorGeometry {
    pub node_count: u32,
    pub index_buffer_offset: u32,
    pub node_offset: u32,
}

impl ActorGeometry {
    /// Number of bytes this record occupies.
    pub const LENGTH: usize = 64;

    /// The decoded record: each field read big-endian at its offset.
    pub open spec fn spec_value(d: Seq<u8>) -> ActorGeometry
        recommends
            d.len() >= 64,
    {
        (ActorGeometry {
            node_count: be32_at(d, 48),
            index_buffer_offset: be32_at(d, 56),
            node_offset: be32_at(d, 60),
        })
    }

    /// Decodes the record from the start of `data`.
    pub fn from_bytes(data: &[u8]) -> (r: Self)
        requires
            data@.len() >= 64,
        ensures
            r == Self::spec_value(data@),
    {
        ActorGeometry {
            node_count: u32_be_at(data, 48),
            index_buffer_offset: u32_be_at(data, 56),
            node_offset: u32_be_at(data, 60),
        }
    }
}
} // verus!
