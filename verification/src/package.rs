//! The package container header and its index records: fixed-layout
//! big-endian structs locating the files, tags and name table inside one
//! package file.
use crate::byteread::{be16_at, be32_at, be64_at, i32_be_at, u32_be_at, u64_be_at, u8_at, u16_be_at};
use vstd::prelude::*;

verus! {

/// Failures of the package reader.
#[derive(Copy, Clone, Debug, PartialEq, Eq, Structural)]
pub enum ParseError {
    UnexpectedEnd,
    ZeroFileCount,
    ZeroTagCount,
}


/// The fixed package header. Only a zero file count is rejected.
#[derive(Copy, Clone, Debug, PartialEq)]
pub struct Header {
    pub crc: u32,
    pub offset_size: u32,
    pub flags: u32,
    pub file_count: i32,
    pub index_offset: u32,
    pub tag_offset: u32,
    pub tag_count: i32,
    pub block_map_offset: u32,
    pub block_map_size: u32,
    pub filename_table_offset: u32,
    pub filename_table_size: u32,
    pub index_size: u32,
    pub start_sector: u32,
    pub build_number: u32,
    pub file_count_using_dma: u32,
}

impl Header {
    /// Number of bytes this record occupies.
    pub const LENGTH: usize = 64;

    /// The decoded record: each field read big-endian at its offset.
    pub open spec fn spec_value(d: Seq<u8>) -> Header
        recommends
            d.len() >= 64,
    {
        (Header {
            crc: be32_at(d, 0),
            offset_size: be32_at(d, 4),
            flags: be32_at(d, 8),
            file_count: be32_at(d, 12) as i32,
            index_offset: be32_at(d, 16),
            tag_offset: be32_at(d, 20),
            tag_count: be32_at(d, 24) as i32,
            block_map_offset: be32_at(d, 32),
            block_map_size: be32_at(d, 36),
            filename_table_offset: be32_at(d, 40),
            filename_table_size: be32_at(d, 44),
            index_size: be32_at(d, 48),
            start_sector: be32_at(d, 52),
            build_number: be32_at(d, 56),
            file_count_using_dma: be32_at(d, 60),
        })
    }

    /// Every required count field is nonzero.
    pub open spec fn spec_ok(d: Seq<u8>) -> bool {
        &&& be32_at(d, 12) as i32 != 0
    }

    /// Decodes the record; a zero in a required count field is the
    /// named error, checked in field order.
    pub fn from_bytes(data: &[u8]) -> (r: Result<Self, ParseError>)
        requires
            data@.len() >= 64,
        ensures
            r is Ok <==> Self::spec_ok(data@),
            Self::spec_ok(data@) ==> r == Ok::<Self, ParseError>(Self::spec_value(data@)),
            be32_at(data@, 12) as i32 == 0 ==> r == Err::<Self, ParseError>(ParseError::ZeroFileCount),
    {
        let v = Header {
            crc: u32_be_at(data, 0),
            offset_size: u32_be_at(data, 4),
            flags: u32_be_at(data, 8),
            file_count: i32_be_at(data, 12),
            index_offset: u32_be_at(data, 16),
            tag_offset: u32_be_at(data, 20),
            tag_count: i32_be_at(data, 24),
            block_map_offset: u32_be_at(data, 32),
            block_map_size: u32_be_at(data, 36),
            filename_table_offset: u32_be_at(data, 40),
            filename_table_size: u32_be_at(data, 44),
            index_size: u32_be_at(data, 48),
            start_sector: u32_be_at(data, 52),
            build_number: u32_be_at(data, 56),
            file_count_using_dma: u32_be_at(data, 60),
        };
        if v.file_count == 0 {
            return Err(ParseError::ZeroFileCount);
        }
        Ok(v)
    }
}

/// One entry of the package file index.
#[derive(Copy, Clone, Debug, PartialEq)]
pub struct FileIndex {
    pub offset: i32,
    pub crc: u32,
    pub size: i32,
    pub filename_offset: u32,
    pub tag_count: u32,
    pub tag_offset: u32,
    pub file_time: u64,
}

impl FileIndex {
    /// Number of bytes this record occupies.
    pub const LENGTH: usize = 32;

    /// The decoded record: each field read big-endian at its offset.
    pub open spec fn spec_value(d: Seq<u8>) -> FileIndex
        recommends
            d.len() >= 32,
    {
        (FileIndex {
            offset: be32_at(d, 0) as i32,
            crc: be32_at(d, 4),
            size: be32_at(d, 8) as i32,
            filename_offset: be32_at(d, 12),
            tag_count: be32_at(d, 16),
            tag_offset: be32_at(d, 20),
            file_time: be64_at(d, 24),
        })
    }

    /// Decodes the record from the start of `data`.
    pub fn from_bytes(data: &[u8]) -> (r: Self)
        requires
            data@.len() >= 32,
        ensures
            r == Self::spec_value(data@),
    {
        FileIndex {
            offset: i32_be_at(data, 0),
            crc: u32_be_at(data, 4),
            size: i32_be_at(data, 8),
            filename_offset: u32_be_at(data, 12),
            tag_count: u32_be_at(data, 16),
            tag_offset: u32_be_at(data, 20),
            file_time: u64_be_at(data, 24),
        }
    }
}

/// One four-byte tag of the package tag table.
#[derive(Copy, Clone, Debug, PartialEq)]
pub struct TagIndex {
    pub tag: (u8, u8, u8, u8),
}

impl TagIndex {
    /// Number of bytes this record occupies.
    pub const LENGTH: usize = 4;

    /// The decoded tag bytes.
    pub open spec fn spec_value(d: Seq<u8>) -> TagIndex
        recommends
            d.len() >= 4,
    {
        (TagIndex { tag: (d[0], d[1], d[2], d[3]) })
    }

    /// Decodes the tag from the start of `data`.
    pub fn from_bytes(data: &[u8]) -> (r: Self)
        requires
            data@.len() >= 4,
        ensures
            r == Self::spec_value(data@),
    {
        TagIndex { tag: (u8_at(data, 0), u8_at(data, 1), u8_at(data, 2), u8_at(data, 3)) }
    }
}


/// Whether every region the header names lies inside the buffer: each
/// product and sum fits its type and each region ends before the buffer
/// does.
pub open spec fn spec_regions_ok(d: Seq<u8>) -> bool {
    let h = Header::spec_value(d);
    &&& h.index_offset * h.offset_size <= u32::MAX
    &&& h.index_offset * h.offset_size + h.index_size <= u32::MAX
    &&& h.index_offset * h.offset_size + h.index_size < d.len()
    &&& h.tag_count * 4 <= i32::MAX
    &&& h.tag_count * 4 >= 0
    &&& h.tag_offset * h.offset_size <= u32::MAX
    &&& h.tag_offset * h.offset_size + h.tag_count * 4 <= u32::MAX
    &&& h.tag_offset * h.offset_size + h.tag_count * 4 < d.len()
    &&& h.block_map_offset * h.offset_size <= u32::MAX
    &&& h.block_map_offset * h.offset_size + h.block_map_size <= u32::MAX
    &&& h.block_map_offset * h.offset_size + h.block_map_size < d.len()
    &&& h.filename_table_offset * h.offset_size <= u32::MAX
    &&& h.filename_table_offset * h.offset_size + h.filename_table_size <= u32::MAX
    &&& h.filename_table_offset * h.offset_size + h.filename_table_size < d.len()
}

/// A validated package file: the header decoded and the index, tag, block
/// map and name table regions it names checked against the buffer.
pub struct Reader<'a> {
    input: &'a [u8],
    header: Header,
}

impl<'a> View for Reader<'a> {
    type V = Seq<u8>;

    closed spec fn view(&self) -> Seq<u8> {
        self.input@
    }
}

impl<'a> Reader<'a> {
    /// The header this reader validated.
    pub closed spec fn spec_header(self) -> Header {
        self.header
    }

    /// Validates a package file: decodes the header, then bounds-checks the
    /// four regions it names. Any overflow, negative tag count or
    /// out-of-range region is `UnexpectedEnd`.
    pub fn new(input: &'a [u8]) -> (r: Result<Self, ParseError>)
        ensures
            r is Ok <==> input@.len() >= 64 && Header::spec_ok(input@) && spec_regions_ok(input@),
            r matches Ok(g) ==> g@ == input@ && g.spec_header() == Header::spec_value(input@),
            input@.len() < 64 ==> r == Err::<Self, ParseError>(ParseError::UnexpectedEnd),
            input@.len() >= 64 && be32_at(input@, 12) as i32 == 0 ==> r == Err::<
                Self,
                ParseError,
            >(ParseError::ZeroFileCount),
            input@.len() >= 64 && Header::spec_ok(input@) && !spec_regions_ok(input@) ==> r
                == Err::<Self, ParseError>(ParseError::UnexpectedEnd),
    {
        let n: usize = input.len();
        if n < Header::LENGTH {
            return Err(ParseError::UnexpectedEnd);
        }
        let header = Header::from_bytes(input)?;

        let index_start = match header.index_offset.checked_mul(header.offset_size) {
            Some(v) => v,
            None => {
                return Err(ParseError::UnexpectedEnd);
            },
        };
        let index_end = match index_start.checked_add(header.index_size) {
            Some(v) => v,
            None => {
                return Err(ParseError::UnexpectedEnd);
            },
        };
        if index_end as usize >= n {
            return Err(ParseError::UnexpectedEnd);
        }
        let tag_size = match header.tag_count.checked_mul(4) {
            Some(v) => v,
            None => {
                return Err(ParseError::UnexpectedEnd);
            },
        };
        if tag_size < 0 {
            return Err(ParseError::UnexpectedEnd);
        }
        let tag_start = match header.tag_offset.checked_mul(header.offset_size) {
            Some(v) => v,
            None => {
                return Err(ParseError::UnexpectedEnd);
            },
        };
        let tag_end = match tag_start.checked_add(tag_size as u32) {
            Some(v) => v,
            None => {
                return Err(ParseError::UnexpectedEnd);
            },
        };
        if tag_end as usize >= n {
            return Err(ParseError::UnexpectedEnd);
        }
        let block_map_start = match header.block_map_offset.checked_mul(header.offset_size) {
            Some(v) => v,
            None => {
                return Err(ParseError::UnexpectedEnd);
            },
        };
        let block_map_end = match block_map_start.checked_add(header.block_map_size) {
            Some(v) => v,
            None => {
                return Err(ParseError::UnexpectedEnd);
            },
        };
        if block_map_end as usize >= n {
            return Err(ParseError::UnexpectedEnd);
        }
        let filename_table_start = match header.filename_table_offset.checked_mul(
            header.offset_size,
        ) {
            Some(v) => v,
            None => {
                return Err(ParseError::UnexpectedEnd);
            },
        };
        let filename_table_end = match filename_table_start.checked_add(
            header.filename_table_size,
        ) {
            Some(v) => v,
            None => {
                return Err(ParseError::UnexpectedEnd);
            },
        };
        if filename_table_end as usize >= n {
            return Err(ParseError::UnexpectedEnd);
        }
        Ok(Self { input, header })
    }

    /// The validated header.
    pub fn header(&self) -> (r: Header)
        ensures
            r == self.spec_header(),
    {
        self.header
    }

    /// The whole underlying buffer.
    pub fn data(&self) -> (r: &[u8])
        ensures
            r@ == self@,
    {
        self.input
    }

    /// The name-table bytes the header names.
    pub fn filename_table(&self) -> (r: Option<&[u8]>)
        requires
            self@.len() <= usize::MAX,
        ensures
            r is Some <==> self.spec_header().filename_table_offset as int
                * self.spec_header().offset_size as int <= u32::MAX
                && self.spec_header().filename_table_offset as int
                * self.spec_header().offset_size as int
                + self.spec_header().filename_table_size as int <= u32::MAX
                && self.spec_header().filename_table_offset as int
                * self.spec_header().offset_size as int
                + self.spec_header().filename_table_size as int <= self@.len(),
            r matches Some(s) ==> s@ == self@.subrange(
                self.spec_header().filename_table_offset as int
                    * self.spec_header().offset_size as int,
                self.spec_header().filename_table_offset as int
                    * self.spec_header().offset_size as int
                    + self.spec_header().filename_table_size as int,
            ),
    {
        let start = match self.header.filename_table_offset.checked_mul(self.header.offset_size) {
            Some(v) => v,
            None => {
                return None;
            },
        };
        let end = match start.checked_add(self.header.filename_table_size) {
            Some(v) => v,
            None => {
                return None;
            },
        };
        let n: usize = self.input.len();
        if (end as usize) > n {
            return None;
        }
        Some(vstd::slice::slice_subrange(self.input, start as usize, end as usize))
    }
}

} // verus!

