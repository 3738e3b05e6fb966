//! The texture asset: its header and its texel formats.
use crate::byteread::{be32_at, u32_be_at, u8_at};
use vstd::prelude::*;

verus! {

/// The texel formats a texture header can name; every unknown selector
/// falls back to `I8`.
#[derive(Copy, Clone, Debug, PartialEq, Eq, Structural)]
pub enum Format {
    Rgba8,
    Rgb5a3,
    Ci8Rgb565,
    Ci8Rgb5a3,
    Ci4Rgb565,
    Ci4Rgb5a3,
    Cmpr,
    I4,
    Rgb565,
    I8,
}

impl Format {
    /// The format a selector word names; unknown selectors are `I8`.
    pub open spec fn spec_new(format: u32) -> Format {
        if format == 0xf {
            Format::Rgba8
        } else if format == 0x10 {
            Format::Rgb5a3
        } else if format == 0x11 {
            Format::Ci8Rgb565
        } else if format == 0x12 {
            Format::Ci8Rgb5a3
        } else if format == 0x13 {
            Format::Ci4Rgb565
        } else if format == 0x14 {
            Format::Ci4Rgb5a3
        } else if format == 0x15 {
            Format::Cmpr
        } else if format == 0x16 {
            Format::I4
        } else if format == 0x17 {
            Format::Rgb565
        } else {
            Format::I8
        }
    }

    /// Decodes the format selector word.
    pub fn new(format: u32) -> (r: Self)
        ensures
            r == Self::spec_new(format),
    {
        match format {
            0xf => Format::Rgba8,
            0x10 => Format::Rgb5a3,
            0x11 => Format::Ci8Rgb565,
            0x12 => Format::Ci8Rgb5a3,
            0x13 => Format::Ci4Rgb565,
            0x14 => Format::Ci4Rgb5a3,
            0x15 => Format::Cmpr,
            0x16 => Format::I4,
            0x17 => Format::Rgb565,
            _ => Format::I8,
        }
    }

    /// Bits one pixel of this format occupies.
    pub open spec fn spec_bits_per_pixel(self) -> usize {
        match self {
            Format::Rgba8 => 32,
            Format::Rgb5a3 => 16,
            Format::Ci8Rgb565 => 8,
            Format::Ci8Rgb5a3 => 8,
            Format::Ci4Rgb565 => 4,
            Format::Ci4Rgb5a3 => 4,
            Format::Cmpr => 4,
            Format::I4 => 4,
            Format::Rgb565 => 16,
            Format::I8 => 8,
        }
    }

    /// Bits one pixel of this format occupies, as `spec_bits_per_pixel`.
    pub fn bits_per_pixel(&self) -> (r: usize)
        ensures
            r == self.spec_bits_per_pixel(),
    {
        match self {
            Format::Rgba8 => 32,
            Format::Rgb5a3 => 16,
            Format::Ci8Rgb565 => 8,
            Format::Ci8Rgb5a3 => 8,
            Format::Ci4Rgb565 => 4,
            Format::Ci4Rgb5a3 => 4,
            Format::Cmpr => 4,
            Format::I4 => 4,
            Format::Rgb565 => 16,
            Format::I8 => 8,
        }
    }

    /// Width and height of this format's texel block.
    pub open spec fn spec_block_dimensions(self) -> (usize, usize) {
        match self {
            Format::Rgba8 => (4, 4),
            Format::Rgb5a3 => (4, 4),
            Format::Ci8Rgb565 => (8, 4),
            Format::Ci8Rgb5a3 => (8, 4),
            Format::Ci4Rgb565 => (8, 8),
            Format::Ci4Rgb5a3 => (8, 8),
            Format::Cmpr => (8, 8),
            Format::I4 => (8, 8),
            Format::Rgb565 => (4, 4),
            Format::I8 => (8, 4),
        }
    }

    /// Width and height of this format's texel block, as
    /// `spec_block_dimensions`.
    pub fn block_dimensions(&self) -> (r: (usize, usize))
        ensures
            r == self.spec_block_dimensions(),
    {
        match self {
            Format::Rgba8 => (4, 4),
            Format::Rgb5a3 => (4, 4),
            Format::Ci8Rgb565 => (8, 4),
            Format::Ci8Rgb5a3 => (8, 4),
            Format::Ci4Rgb565 => (8, 8),
            Format::Ci4Rgb5a3 => (8, 8),
            Format::Cmpr => (8, 8),
            Format::I4 => (8, 8),
            Format::Rgb565 => (4, 4),
            Format::I8 => (8, 4),
        }
    }
}


/// The texture header: geometry, format, and the lookup and image data
/// locations. A zero in a required dimension, size or offset field is
/// rejected with the matching error, checked in field order.
#[derive(Copy, Clone, Debug, PartialEq)]
pub struct Header {
    pub width: u32,
    pub height: u32,
    pub texr_format: Format,
    pub should_mipmap: bool,
    pub frame_count: u8,
    pub size: u32,
    pub flip_count: u32,
    pub tlut_offset: u32,
    pub img_start_offset: u32,
    pub img_end_offset: u32,
}

impl Header {
    /// Number of bytes this record occupies.
    pub const LENGTH: usize = 0x80;

    /// The decoded header: each field read big-endian at its offset.
    pub open spec fn spec_value(d: Seq<u8>) -> Header
        recommends
            d.len() >= 0x80,
    {
        (Header {
            width: be32_at(d, 0x20),
            height: be32_at(d, 0x24),
            texr_format: Format::spec_new(be32_at(d, 0x28)),
            should_mipmap: d[0x2E] < 1,
            frame_count: d[0x2F],
            size: be32_at(d, 0x38),
            flip_count: be32_at(d, 0x3C),
            tlut_offset: be32_at(d, 0x6C),
            img_start_offset: be32_at(d, 0x70),
            img_end_offset: be32_at(d, 0x74),
        })
    }

    /// Every required dimension, size and offset field is nonzero.
    pub open spec fn spec_ok(d: Seq<u8>) -> bool {
        &&& be32_at(d, 0x20) != 0
        &&& be32_at(d, 0x24) != 0
        &&& be32_at(d, 0x38) != 0
        &&& be32_at(d, 0x70) != 0
        &&& be32_at(d, 0x74) != 0
    }

    /// Decodes the header; zero checks run in field order.
    pub fn from_bytes(data: &[u8]) -> (r: Result<Self, crate::ParseError>)
        requires
            data@.len() >= 0x80,
        ensures
            r is Ok <==> Self::spec_ok(data@),
            Self::spec_ok(data@) ==> r == Ok::<Self, crate::ParseError>(Self::spec_value(data@)),
            be32_at(data@, 0x20) == 0 ==> r == Err::<Self, crate::ParseError>(
                crate::ParseError::ZeroWidth,
            ),
            be32_at(data@, 0x20) != 0 && be32_at(data@, 0x24) == 0 ==> r == Err::<
                Self,
                crate::ParseError,
            >(crate::ParseError::ZeroHeight),
            be32_at(data@, 0x20) != 0 && be32_at(data@, 0x24) != 0 && be32_at(data@, 0x38) == 0
                ==> r == Err::<Self, crate::ParseError>(crate::ParseError::ZeroSize),
            be32_at(data@, 0x20) != 0 && be32_at(data@, 0x24) != 0 && be32_at(data@, 0x38) != 0
                && (be32_at(data@, 0x70) == 0 || be32_at(data@, 0x74) == 0) ==> r == Err::<
                Self,
                crate::ParseError,
            >(crate::ParseError::ZeroOffset),
    {
        let header = Header {
            width: u32_be_at(data, 0x20),
            height: u32_be_at(data, 0x24),
            texr_format: Format::new(u32_be_at(data, 0x28)),
            should_mipmap: u8_at(data, 0x2E) < 1,
            frame_count: u8_at(data, 0x2F),
            size: u32_be_at(data, 0x38),
            flip_count: u32_be_at(data, 0x3C),
            tlut_offset: u32_be_at(data, 0x6C),
            img_start_offset: u32_be_at(data, 0x70),
            img_end_offset: u32_be_at(data, 0x74),
        };
        if header.width == 0 {
            return Err(crate::ParseError::ZeroWidth);
        }
        if header.height == 0 {
            return Err(crate::ParseError::ZeroHeight);
        }
        if header.size == 0 {
            return Err(crate::ParseError::ZeroSize);
        }
        if header.img_start_offset == 0 {
            return Err(crate::ParseError::ZeroOffset);
        }
        if header.img_end_offset == 0 {
            return Err(crate::ParseError::ZeroOffset);
        }
        Ok(header)
    }
}


/// Whether the image and lookup regions the header names are ordered and
/// inside the buffer: the image span fits in 32 bits, ends inside the
/// buffer, and any lookup table starts at or before the image.
pub open spec fn spec_regions_ok(d: Seq<u8>) -> bool {
    let h = Header::spec_value(d);
    &&& h.img_start_offset + h.img_end_offset <= u32::MAX
    &&& h.img_end_offset <= d.len()
    &&& (h.tlut_offset != 0 ==> h.tlut_offset <= h.img_start_offset)
}

/// A validated texture buffer: the header decoded and the image and lookup
/// regions it names checked against the buffer.
pub struct TexrReader<'a> {
    input: &'a [u8],
    header: Header,
}

impl<'a> View for TexrReader<'a> {
    type V = Seq<u8>;

    closed spec fn view(&self) -> Seq<u8> {
        self.input@
    }
}

impl<'a> TexrReader<'a> {
    /// The header this reader validated.
    pub closed spec fn spec_header(self) -> Header {
        self.header
    }

    /// Validates a texture buffer: decodes the header, then checks that the
    /// image region fits and that the lookup table, if present, sits before
    /// the image data.
    pub fn new(input: &'a [u8]) -> (r: Result<Self, crate::ParseError>)
        ensures
            r is Ok <==> input@.len() >= 0x80 && Header::spec_ok(input@) && spec_regions_ok(
                input@,
            ),
            r matches Ok(t) ==> t@ == input@ && t.spec_header() == Header::spec_value(input@),
            input@.len() < 0x80 ==> r == Err::<Self, crate::ParseError>(
                crate::ParseError::UnexpectedEnd,
            ),
            input@.len() >= 0x80 && Header::spec_ok(input@) && !spec_regions_ok(input@) ==> r
                == Err::<Self, crate::ParseError>(crate::ParseError::UnexpectedEnd),
    {
        let n: usize = input.len();
        if n < Header::LENGTH {
            return Err(crate::ParseError::UnexpectedEnd);
        }
        let header = Header::from_bytes(input)?;
        if header.img_start_offset.checked_add(header.img_end_offset).is_none() {
            return Err(crate::ParseError::UnexpectedEnd);
        }
        if header.img_end_offset as usize > n {
            return Err(crate::ParseError::UnexpectedEnd);
        }
        if header.tlut_offset != 0 && header.tlut_offset > header.img_start_offset {
            return Err(crate::ParseError::UnexpectedEnd);
        }
        Ok(Self { input, header })
    }

    /// The validated header.
    pub fn header(&self) -> (r: Header)
        ensures
            r == self.spec_header(),
    {
        self.header
    }

    /// The whole underlying buffer.
    pub fn data(&self) -> (r: &[u8])
        ensures
            r@ == self@,
    {
        self.input
    }

    /// The color-lookup bytes, when the header names a lookup table and the
    /// region lies inside the buffer.
    pub fn texture_lookup_data(&self) -> (r: Option<&[u8]>)
        ensures
            r matches Some(s) ==> s@ == self@.subrange(
                self.spec_header().tlut_offset as int,
                self.spec_header().img_start_offset as int,
            ),
            r is Some <==> self.spec_header().tlut_offset != 0 && self.spec_header().tlut_offset
                <= self.spec_header().img_start_offset && self.spec_header().img_start_offset
                <= self@.len(),
    {
        if self.header.tlut_offset == 0 {
            return None;
        }
        let start = self.header.tlut_offset as usize;
        let end = self.header.img_start_offset as usize;
        let n: usize = self.input.len();
        if start > end || end > n {
            return None;
        }
        Some(vstd::slice::slice_subrange(self.input, start, end))
    }

    /// The image bytes, when the region the header names lies inside the
    /// buffer in order.
    pub fn image_data(&self) -> (r: Option<&[u8]>)
        ensures
            r matches Some(s) ==> s@ == self@.subrange(
                self.spec_header().img_start_offset as int,
                self.spec_header().img_end_offset as int,
            ),
            r is Some <==> self.spec_header().img_start_offset
                <= self.spec_header().img_end_offset && self.spec_header().img_end_offset
                <= self@.len(),
    {
        let start = self.header.img_start_offset as usize;
        let end = self.header.img_end_offset as usize;
        let n: usize = self.input.len();
        if start > end || end > n {
            return None;
        }
        Some(vstd::slice::slice_subrange(self.input, start, end))
    }
}

} // verus!
