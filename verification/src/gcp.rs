//! The package container: the header, the per-file index records and the
//! four-character asset tags.
use crate::byteread::{be32_at, u32_be_at, u8_at};
use vstd::prelude::*;

verus! {

/// The asset type named by a four-character tag. Unrecognized tags map to
/// `NoTag` rather than failing: package files carry tags this tool never
/// interprets.
#[derive(Copy, Clone, Debug, PartialEq, Eq, Structural)]
pub enum Tag {
    Splash,
    Texture,
    Actor,
    Sample,
    StringTable,
    AssetSet,
    CollisionMesh,
    FaceMesh,
    AudioStream,
    FaceWorld,
    SoundBank,
    SoundPatch,
    LightMatrix,
    Subtitle,
    Material,
    Bldr,
    VertexShader,
    PixelShader,
    LipSync,
    SimulationData,
    Font,
    NoTag,
}

impl Tag {
    /// Number of bytes a tag occupies.
    pub const LENGTH: usize = 4;

    /// The tag four bytes select; unknown bytes are `NoTag`.
    pub open spec fn spec_from_bytes(d: Seq<u8>) -> Tag
        recommends
            d.len() >= 4,
    {
        if d[0] == 83 && d[1] == 80 && d[2] == 76 && d[3] == 65 {
            Tag::Splash
        } else if d[0] == 84 && d[1] == 69 && d[2] == 88 && d[3] == 82 {
            Tag::Texture
        } else if d[0] == 65 && d[1] == 67 && d[2] == 84 && d[3] == 82 {
            Tag::Actor
        } else if d[0] == 83 && d[1] == 65 && d[2] == 77 && d[3] == 80 {
            Tag::Sample
        } else if d[0] == 83 && d[1] == 84 && d[2] == 65 && d[3] == 66 {
            Tag::StringTable
        } else if d[0] == 83 && d[1] == 69 && d[2] == 84 && d[3] == 32 {
            Tag::AssetSet
        } else if d[0] == 67 && d[1] == 77 && d[2] == 69 && d[3] == 83 {
            Tag::CollisionMesh
        } else if d[0] == 65 && d[1] == 83 && d[2] == 84 && d[3] == 82 {
            Tag::AudioStream
        } else if d[0] == 95 && d[1] == 83 && d[2] == 84 && d[3] == 82 {
            Tag::AudioStream
        } else if d[0] == 64 && d[1] == 83 && d[2] == 84 && d[3] == 82 {
            Tag::AudioStream
        } else if d[0] == 70 && d[1] == 77 && d[2] == 83 && d[3] == 72 {
            Tag::FaceMesh
        } else if d[0] == 70 && d[1] == 87 && d[2] == 82 && d[3] == 76 {
            Tag::FaceWorld
        } else if d[0] == 83 && d[1] == 66 && d[2] == 78 && d[3] == 75 {
            Tag::SoundBank
        } else if d[0] == 83 && d[1] == 80 && d[2] == 65 && d[3] == 84 {
            Tag::SoundPatch
        } else if d[0] == 76 && d[1] == 84 && d[2] == 77 && d[3] == 88 {
            Tag::LightMatrix
        } else if d[0] == 83 && d[1] == 85 && d[2] == 66 && d[3] == 84 {
            Tag::Subtitle
        } else if d[0] == 77 && d[1] == 84 && d[2] == 82 && d[3] == 76 {
            Tag::Material
        } else if d[0] == 66 && d[1] == 76 && d[2] == 68 && d[3] == 82 {
            Tag::Bldr
        } else if d[0] == 86 && d[1] == 83 && d[2] == 72 && d[3] == 82 {
            Tag::VertexShader
        } else if d[0] == 80 && d[1] == 83 && d[2] == 72 && d[3] == 82 {
            Tag::PixelShader
        } else if d[0] == 76 && d[1] == 73 && d[2] == 80 && d[3] == 83 {
            Tag::LipSync
        } else if d[0] == 83 && d[1] == 73 && d[2] == 77 && d[3] == 68 {
            Tag::SimulationData
        } else if d[0] == 70 && d[1] == 79 && d[2] == 78 && d[3] == 84 {
            Tag::Font
        } else {
            Tag::NoTag
        }
    }

    /// Decodes a four-byte tag.
    pub fn from_bytes(data: &[u8]) -> (r: Self)
        requires
            data@.len() >= 4,
        ensures
            r == Self::spec_from_bytes(data@),
    {
        let b0 = u8_at(data, 0);
        let b1 = u8_at(data, 1);
        let b2 = u8_at(data, 2);
        let b3 = u8_at(data, 3);
        if b0 == 83 && b1 == 80 && b2 == 76 && b3 == 65 {
            Tag::Splash
        } else if b0 == 84 && b1 == 69 && b2 == 88 && b3 == 82 {
            Tag::Texture
        } else if b0 == 65 && b1 == 67 && b2 == 84 && b3 == 82 {
            Tag::Actor
        } else if b0 == 83 && b1 == 65 && b2 == 77 && b3 == 80 {
            Tag::Sample
        } else if b0 == 83 && b1 == 84 && b2 == 65 && b3 == 66 {
            Tag::StringTable
        } else if b0 == 83 && b1 == 69 && b2 == 84 && b3 == 32 {
            Tag::AssetSet
        } else if b0 == 67 && b1 == 77 && b2 == 69 && b3 == 83 {
            Tag::CollisionMesh
        } else if b0 == 65 && b1 == 83 && b2 == 84 && b3 == 82 {
            Tag::AudioStream
        } else if b0 == 95 && b1 == 83 && b2 == 84 && b3 == 82 {
            Tag::AudioStream
        } else if b0 == 64 && b1 == 83 && b2 == 84 && b3 == 82 {
            Tag::AudioStream
        } else if b0 == 70 && b1 == 77 && b2 == 83 && b3 == 72 {
            Tag::FaceMesh
        } else if b0 == 70 && b1 == 87 && b2 == 82 && b3 == 76 {
            Tag::FaceWorld
        } else if b0 == 83 && b1 == 66 && b2 == 78 && b3 == 75 {
            Tag::SoundBank
        } else if b0 == 83 && b1 == 80 && b2 == 65 && b3 == 84 {
            Tag::SoundPatch
        } else if b0 == 76 && b1 == 84 && b2 == 77 && b3 == 88 {
            Tag::LightMatrix
        } else if b0 == 83 && b1 == 85 && b2 == 66 && b3 == 84 {
            Tag::Subtitle
        } else if b0 == 77 && b1 == 84 && b2 == 82 && b3 == 76 {
            Tag::Material
        } else if b0 == 66 && b1 == 76 && b2 == 68 && b3 == 82 {
            Tag::Bldr
        } else if b0 == 86 && b1 == 83 && b2 == 72 && b3 == 82 {
            Tag::VertexShader
        } else if b0 == 80 && b1 == 83 && b2 == 72 && b3 == 82 {
            Tag::PixelShader
        } else if b0 == 76 && b1 == 73 && b2 == 80 && b3 == 83 {
            Tag::LipSync
        } else if b0 == 83 && b1 == 73 && b2 == 77 && b3 == 68 {
            Tag::SimulationData
        } else if b0 == 70 && b1 == 79 && b2 == 78 && b3 == 84 {
            Tag::Font
        } else {
            Tag::NoTag
        }
    }
}

/// One file entry of the package index: where the file bytes, the name
/// and the tag sit, all as offsets in the header alignment unit.
#[derive(Copy, Clone, Debug, PartialEq)]
pub struct FileInfo {
    pub data_offset: u32,
    pub crc: u32,
    pub file_size: u32,
    pub name_offset: u32,
    pub is_local: bool,
    pub resource_tag_offset: u32,
}

impl FileInfo {
    /// Number of bytes this record occupies.
    pub const LENGTH: usize = 32;

    /// The decoded record: each field read big-endian at its offset.
    pub open spec fn spec_value(d: Seq<u8>) -> FileInfo
        recommends
            d.len() >= 32,
    {
        (FileInfo {
            data_offset: be32_at(d, 0),
            crc: be32_at(d, 4),
            file_size: be32_at(d, 8),
            name_offset: be32_at(d, 12),
            is_local: (be32_at(d, 16) != 0),
            resource_tag_offset: be32_at(d, 20),
        })
    }

    /// Decodes the record from the start of `data`.
    pub fn from_bytes(data: &[u8]) -> (r: Self)
        requires
            data@.len() >= 32,
        ensures
            r == Self::spec_value(data@),
    {
        FileInfo {
            data_offset: u32_be_at(data, 0),
            crc: u32_be_at(data, 4),
            file_size: u32_be_at(data, 8),
            name_offset: u32_be_at(data, 12),
            is_local: u32_be_at(data, 16) != 0,
            resource_tag_offset: u32_be_at(data, 20),
        }
    }
}
/// A file-info record taken from an owned byte array (the same layout as
/// `from_bytes`).
impl FileInfo {
    pub fn from_be_bytes(bytes: [u8; 32]) -> (r: Self)
        ensures
            r == Self::spec_value(bytes@),
    {
        let d = bytes.as_slice();
        Self::from_bytes(d)
    }
}

/// The package header: alignment unit and the three table locations.
#[derive(Copy, Clone, Debug, PartialEq)]
pub struct Header {
    pub align_offset: u32,
    pub file_info_count: u32,
    pub file_info_offset: u32,
    pub file_tag_offset: u32,
    pub file_tag_count: u32,
    pub string_table_offset: u32,
    pub string_table_size: u32,
}

impl Header {
    /// Number of bytes this record occupies.
    pub const LENGTH: usize = 64;

    /// The decoded record: each field read big-endian at its offset.
    pub open spec fn spec_value(d: Seq<u8>) -> Header
        recommends
            d.len() >= 64,
    {
        (Header {
            align_offset: be32_at(d, 4),
            file_info_count: be32_at(d, 12),
            file_info_offset: be32_at(d, 16),
            file_tag_offset: be32_at(d, 20),
            file_tag_count: be32_at(d, 24),
            string_table_offset: be32_at(d, 40),
            string_table_size: be32_at(d, 44),
        })
    }

    /// Every required count field is nonzero.
    pub open spec fn spec_ok(d: Seq<u8>) -> bool {
        &&& be32_at(d, 12) != 0
        &&& be32_at(d, 44) != 0
    }

    /// Decodes the record; a zero in a required count field is the
    /// named error, checked in field order.
    pub fn from_bytes(data: &[u8]) -> (r: Result<Self, crate::ParseError>)
        requires
            data@.len() >= 64,
        ensures
            r is Ok <==> Self::spec_ok(data@),
            Self::spec_ok(data@) ==> r == Ok::<Self, crate::ParseError>(Self::spec_value(data@)),
            be32_at(data@, 12) == 0 ==> r == Err::<Self, crate::ParseError>(crate::ParseError::ZeroFiles),
            be32_at(data@, 12) != 0 && be32_at(data@, 44) == 0 ==> r == Err::<Self, crate::ParseError>(crate::ParseError::ZeroStrings),
    {
        let v = Header {
            align_offset: u32_be_at(data, 4),
            file_info_count: u32_be_at(data, 12),
            file_info_offset: u32_be_at(data, 16),
            file_tag_offset: u32_be_at(data, 20),
            file_tag_count: u32_be_at(data, 24),
            string_table_offset: u32_be_at(data, 40),
            string_table_size: u32_be_at(data, 44),
        };
        if v.file_info_count == 0 {
            return Err(crate::ParseError::ZeroFiles);
        }
        if v.string_table_size == 0 {
            return Err(crate::ParseError::ZeroStrings);
        }
        Ok(v)
    }
}
/// One resolved resource: its name and data slices borrowed from the
/// package buffer, with its tag and bookkeeping fields.
pub struct ResourceEntry<'a> {
    pub name: &'a [u8],
    pub data: &'a [u8],
    pub tag: Tag,
    pub is_local: bool,
    pub crc: u32,
}


/// Whether every table the header names lies inside the buffer: each
/// product and sum fits in 32 bits and each table ends before the buffer
/// does.
pub open spec fn spec_tables_ok(d: Seq<u8>) -> bool {
    let h = Header::spec_value(d);
    &&& h.align_offset * h.file_info_offset <= u32::MAX
    &&& h.file_info_count * 32 <= u32::MAX
    &&& h.align_offset * h.file_info_offset + h.file_info_count * 32 <= u32::MAX
    &&& h.align_offset * h.file_info_offset + h.file_info_count * 32 < d.len()
    &&& h.align_offset * h.file_tag_offset <= u32::MAX
    &&& h.file_tag_count * 4 <= u32::MAX
    &&& h.align_offset * h.file_tag_offset + h.file_tag_count * 4 <= u32::MAX
    &&& h.align_offset * h.file_tag_offset + h.file_tag_count * 4 < d.len()
    &&& h.align_offset * h.string_table_offset <= u32::MAX
    &&& h.align_offset * h.string_table_offset + h.string_table_size <= u32::MAX
    &&& h.align_offset * h.string_table_offset + h.string_table_size < d.len()
}

/// A validated package buffer: the header decoded and every table it names
/// checked to lie inside the buffer.
pub struct GcpReader<'a> {
    input: &'a [u8],
    header: Header,
}

impl<'a> View for GcpReader<'a> {
    type V = Seq<u8>;

    closed spec fn view(&self) -> Seq<u8> {
        self.input@
    }
}

impl<'a> GcpReader<'a> {
    /// The header this reader validated.
    pub closed spec fn spec_header(self) -> Header {
        self.header
    }

    /// Validates a package buffer: decodes the header, then bounds-checks
    /// the file-info, tag and string tables it names. Any overflow or
    /// out-of-range table is `UnexpectedEnd`.
    pub fn new(input: &'a [u8]) -> (r: Result<Self, crate::ParseError>)
        ensures
            r is Ok <==> input@.len() >= 64 && Header::spec_ok(input@) && spec_tables_ok(input@),
            r matches Ok(g) ==> g@ == input@ && g.spec_header() == Header::spec_value(input@),
            input@.len() < 64 ==> r == Err::<Self, crate::ParseError>(
                crate::ParseError::UnexpectedEnd,
            ),
            input@.len() >= 64 && be32_at(input@, 12) == 0 ==> r == Err::<Self, crate::ParseError>(
                crate::ParseError::ZeroFiles,
            ),
            input@.len() >= 64 && be32_at(input@, 12) != 0 && be32_at(input@, 44) == 0 ==> r
                == Err::<Self, crate::ParseError>(crate::ParseError::ZeroStrings),
            input@.len() >= 64 && Header::spec_ok(input@) && !spec_tables_ok(input@) ==> r
                == Err::<Self, crate::ParseError>(crate::ParseError::UnexpectedEnd),
    {
        let n: usize = input.len();
        if n < Header::LENGTH {
            return Err(crate::ParseError::UnexpectedEnd);
        }
        let header = Header::from_bytes(input)?;

        let file_info_start = match header.align_offset.checked_mul(header.file_info_offset) {
            Some(v) => v,
            None => {
                return Err(crate::ParseError::UnexpectedEnd);
            },
        };
        let file_info_size = match header.file_info_count.checked_mul(32) {
            Some(v) => v,
            None => {
                return Err(crate::ParseError::UnexpectedEnd);
            },
        };
        let file_info_end = match file_info_start.checked_add(file_info_size) {
            Some(v) => v,
            None => {
                return Err(crate::ParseError::UnexpectedEnd);
            },
        };
        if file_info_end as usize >= n {
            return Err(crate::ParseError::UnexpectedEnd);
        }
        let file_tag_start = match header.align_offset.checked_mul(header.file_tag_offset) {
            Some(v) => v,
            None => {
                return Err(crate::ParseError::UnexpectedEnd);
            },
        };
        let file_tag_size = match header.file_tag_count.checked_mul(4) {
            Some(v) => v,
            None => {
                return Err(crate::ParseError::UnexpectedEnd);
            },
        };
        let file_tag_end = match file_tag_start.checked_add(file_tag_size) {
            Some(v) => v,
            None => {
                return Err(crate::ParseError::UnexpectedEnd);
            },
        };
        if file_tag_end as usize >= n {
            return Err(crate::ParseError::UnexpectedEnd);
        }
        let string_table_start = match header.align_offset.checked_mul(
            header.string_table_offset,
        ) {
            Some(v) => v,
            None => {
                return Err(crate::ParseError::UnexpectedEnd);
            },
        };
        let string_table_end = match string_table_start.checked_add(header.string_table_size) {
            Some(v) => v,
            None => {
                return Err(crate::ParseError::UnexpectedEnd);
            },
        };
        if string_table_end as usize >= n {
            return Err(crate::ParseError::UnexpectedEnd);
        }
        Ok(Self { input, header })
    }

    /// The validated header.
    pub fn header(&self) -> (r: Header)
        ensures
            r == self.spec_header(),
    {
        self.header
    }
}

} // verus!
