//! In-memory resource bookkeeping records: the engine keys every loaded
//! asset by a package id, a type and a checksum.
use crate::byteread::{be16_at, be32_at, u16_be_at, u32_be_at, u8_at};
use vstd::prelude::*;

verus! {

/// A package identifier: a 31-bit checksum plus a loaded bit, kept opaque.
#[derive(Copy, Clone, Debug, PartialEq)]
pub struct PackageId(pub u32);

/// The resource types a resource-info entry can name.
#[derive(Copy, Clone, Debug, PartialEq, Eq, Structural)]
pub enum Kind {
    Texture,
    Actor,
    Sample,
    Font,
    StringTable,
    Splash,
    AssetSet,
    CollisionMesh,
    AudioStream,
    LipSync,
    FlareMesh,
    FlareWorld,
    SoundBank,
    SoundPatch,
    LightMatrix,
    SimulationData,
    SubTitle,
    Material,
    Blender,
    VertexShader,
    PixelShader,
    NoKind,
}

impl Kind {
    /// The kind a type byte selects, if any.
    pub open spec fn spec_try_from(value: u8) -> Result<Kind, ()> {
        if value == 0 {
            Ok(Kind::Texture)
        } else if value == 1 {
            Ok(Kind::Actor)
        } else if value == 2 {
            Ok(Kind::Sample)
        } else if value == 3 {
            Ok(Kind::Font)
        } else if value == 4 {
            Ok(Kind::StringTable)
        } else if value == 5 {
            Ok(Kind::Splash)
        } else if value == 6 {
            Ok(Kind::AssetSet)
        } else if value == 7 {
            Ok(Kind::CollisionMesh)
        } else if value == 8 {
            Ok(Kind::AudioStream)
        } else if value == 9 {
            Ok(Kind::LipSync)
        } else if value == 10 {
            Ok(Kind::FlareMesh)
        } else if value == 11 {
            Ok(Kind::FlareWorld)
        } else if value == 12 {
            Ok(Kind::SoundBank)
        } else if value == 13 {
            Ok(Kind::SoundPatch)
        } else if value == 14 {
            Ok(Kind::LightMatrix)
        } else if value == 15 {
            Ok(Kind::SimulationData)
        } else if value == 16 {
            Ok(Kind::SubTitle)
        } else if value == 17 {
            Ok(Kind::Material)
        } else if value == 18 {
            Ok(Kind::Blender)
        } else if value == 19 {
            Ok(Kind::VertexShader)
        } else if value == 20 {
            Ok(Kind::PixelShader)
        } else if value == 255 {
            Ok(Kind::NoKind)
        } else {
            Err(())
        }
    }

    /// Decodes the type byte of a resource-info entry.
    pub fn try_from(value: u8) -> (r: Result<Self, ()>)
        ensures
            r == Self::spec_try_from(value),
    {
        match value {
            0 => Ok(Kind::Texture),
            1 => Ok(Kind::Actor),
            2 => Ok(Kind::Sample),
            3 => Ok(Kind::Font),
            4 => Ok(Kind::StringTable),
            5 => Ok(Kind::Splash),
            6 => Ok(Kind::AssetSet),
            7 => Ok(Kind::CollisionMesh),
            8 => Ok(Kind::AudioStream),
            9 => Ok(Kind::LipSync),
            10 => Ok(Kind::FlareMesh),
            11 => Ok(Kind::FlareWorld),
            12 => Ok(Kind::SoundBank),
            13 => Ok(Kind::SoundPatch),
            14 => Ok(Kind::LightMatrix),
            15 => Ok(Kind::SimulationData),
            16 => Ok(Kind::SubTitle),
            17 => Ok(Kind::Material),
            18 => Ok(Kind::Blender),
            19 => Ok(Kind::VertexShader),
            20 => Ok(Kind::PixelShader),
            255 => Ok(Kind::NoKind),
            _ => Err(()),
        }
    }
}

/// One in-memory resource-info entry: the package id, the grouping fields
/// and the intrusive-tree offsets, all preserved verbatim.
#[derive(Copy, Clone, Debug, PartialEq)]
pub struct ResourceInfo {
    pub package_id: PackageId,
    pub group_id: u16,
    pub resource_kind: Kind,
    pub context: u32,
    pub crc: u32,
    pub child1_offset: u32,
    pub child2_offset: u32,
    pub parent_offset: u32,
}

impl ResourceInfo {
    /// Number of bytes this record occupies.
    pub const LENGTH: usize = 0x20;

    /// The decoded record, defined when the type byte names a kind.
    pub open spec fn spec_value(d: Seq<u8>) -> ResourceInfo
        recommends
            d.len() >= 0x20,
            Kind::spec_try_from(d[6]) is Ok,
    {
        (ResourceInfo {
            package_id: PackageId(be32_at(d, 0)),
            group_id: be16_at(d, 4),
            resource_kind: Kind::spec_try_from(d[6]).unwrap(),
            context: be32_at(d, 8),
            crc: be32_at(d, 12),
            child1_offset: be32_at(d, 16),
            child2_offset: be32_at(d, 20),
            parent_offset: be32_at(d, 24),
        })
    }

    /// Decodes the record; an unknown type byte is the error.
    pub fn from_bytes(data: &[u8]) -> (r: Result<Self, ()>)
        requires
            data@.len() >= 0x20,
        ensures
            r is Ok <==> Kind::spec_try_from(data@[6]) is Ok,
            Kind::spec_try_from(data@[6]) is Ok ==> r == Ok::<Self, ()>(Self::spec_value(data@)),
    {
        let resource_kind = Kind::try_from(u8_at(data, 6))?;
        Ok(ResourceInfo {
            package_id: PackageId(u32_be_at(data, 0)),
            group_id: u16_be_at(data, 4),
            resource_kind,
            context: u32_be_at(data, 8),
            crc: u32_be_at(data, 12),
            child1_offset: u32_be_at(data, 16),
            child2_offset: u32_be_at(data, 20),
            parent_offset: u32_be_at(data, 24),
        })
    }
}

} // verus!
