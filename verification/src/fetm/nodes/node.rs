//! A scene node's placement: the transform sum type and the optional
//! attachment sub-record that every node decoder shares.
use crate::fetm::layout::{read_float, read_int, read_str};
use crate::fetm::{Error, TkKind};
use crate::ParseError;
use vstd::prelude::*;

verus! {

/// The ten floats of a static placement: position, scale and a quaternion.
#[derive(Copy, Clone, Debug, PartialEq)]
pub struct StaticTransform {
    pub pos_x: u32,
    pub pos_y: u32,
    pub pos_z: u32,
    pub scale_x: u32,
    pub scale_y: u32,
    pub scale_z: u32,
    pub rot_x: u32,
    pub rot_y: u32,
    pub rot_z: u32,
    pub rot_w: u32,
}

impl StaticTransform {
    /// Number of tokens this record consumes (not counting the tag).
    pub const SIZE: usize = 10;

    /// The record fits and every token it reads is a float.
    pub open spec fn spec_wf(s: Seq<TkKind>) -> bool {
        &&& s.len() >= 10
        &&& forall|i: int| 0 <= i < 10 ==> s[i].is_float_kind()
    }

    /// Kind correctness of however much of the record is present.
    pub open spec fn spec_prefix_ok(s: Seq<TkKind>) -> bool {
        forall|i: int| 0 <= i < 10 && i < s.len() ==> s[i].is_float_kind()
    }

    /// The decoded record.
    pub open spec fn spec_value(s: Seq<TkKind>) -> StaticTransform
        recommends
            Self::spec_wf(s),
    {
        (StaticTransform {
            pos_x: s[0].spec_float_bits(),
            pos_y: s[1].spec_float_bits(),
            pos_z: s[2].spec_float_bits(),
            scale_x: s[3].spec_float_bits(),
            scale_y: s[4].spec_float_bits(),
            scale_z: s[5].spec_float_bits(),
            rot_x: s[6].spec_float_bits(),
            rot_y: s[7].spec_float_bits(),
            rot_z: s[8].spec_float_bits(),
            rot_w: s[9].spec_float_bits(),
        })
    }

    /// What decoding yields on any token slice.
    pub open spec fn spec_decode(s: Seq<TkKind>) -> Result<StaticTransform, Error> {
        if !Self::spec_prefix_ok(s) {
            Err(Error::InvalidTokenKind)
        } else if !Self::spec_wf(s) {
            Err(Error::ParseError(ParseError::UnexpectedEnd))
        } else {
            Ok(Self::spec_value(s))
        }
    }

    /// Decodes the ten floats from the front of `tokens`.
    pub fn from_tokens(tokens: &[TkKind]) -> (r: Result<Self, Error>)
        ensures
            r == Self::spec_decode(tokens@),
    {
        let pos_x = read_float(tokens, 0)?;
        let pos_y = read_float(tokens, 1)?;
        let pos_z = read_float(tokens, 2)?;
        let scale_x = read_float(tokens, 3)?;
        let scale_y = read_float(tokens, 4)?;
        let scale_z = read_float(tokens, 5)?;
        let rot_x = read_float(tokens, 6)?;
        let rot_y = read_float(tokens, 7)?;
        let rot_z = read_float(tokens, 8)?;
        let rot_w = read_float(tokens, 9)?;
        proof {
            assert forall|i: int| 0 <= i < 10 && i < tokens@.len() implies tokens@[i]
                .is_float_kind() by {}
            assert(Self::spec_wf(tokens@));
        }
        Ok(StaticTransform {
            pos_x,
            pos_y,
            pos_z,
            scale_x,
            scale_y,
            scale_z,
            rot_x,
            rot_y,
            rot_z,
            rot_w,
        })
    }
}

/// The spline placement form. Its layout was never reverse-engineered; only
/// its token width is known, and decoding one is `CurrentlyNotSupported`.
#[derive(Copy, Clone, Debug, PartialEq)]
pub struct SplineTransform;

impl SplineTransform {
    /// Number of tokens this record would consume (not counting the tag).
    pub const SIZE: usize = 2;
}

/// A node's placement: a static transform selected by a leading tag of 1, or
/// nothing (tag 0). The spline form (tag 2) is `CurrentlyNotSupported`; any
/// other tag is a format violation.
#[derive(Copy, Clone, Debug, PartialEq)]
pub enum Transform {
    Static(StaticTransform),
    Spline(SplineTransform),
    Empty,
}

impl Transform {
    /// Number of tokens this transform consumed, tag included.
    pub open spec fn spec_size(self) -> int {
        match self {
            Transform::Static(_) => 11,
            Transform::Spline(_) => 3,
            Transform::Empty => 1,
        }
    }

    /// Number of tokens this transform consumed, as `spec_size`.
    pub fn size(&self) -> (r: usize)
        ensures
            r == self.spec_size(),
    {
        match *self {
            Transform::Static(_) => 11,
            Transform::Spline(_) => 3,
            Transform::Empty => 1,
        }
    }

    /// What decoding yields: the tag token, then the selected form.
    pub open spec fn spec_decode(s: Seq<TkKind>) -> Result<Transform, Error> {
        if s.len() == 0 {
            Err(Error::ParseError(ParseError::UnexpectedEnd))
        } else if !s[0].is_int_kind() {
            Err(Error::InvalidTokenKind)
        } else if s[0].spec_int() == 1 {
            match StaticTransform::spec_decode(s.skip(1)) {
                Err(e) => Err(e),
                Ok(st) => Ok(Transform::Static(st)),
            }
        } else if s[0].spec_int() == 0 {
            Ok(Transform::Empty)
        } else if s[0].spec_int() == 2 {
            Err(Error::CurrentlyNotSupported)
        } else {
            Err(Error::InvalidTokenKind)
        }
    }

    /// Decodes the transform from the front of `tokens`.
    pub fn from_tokens(tokens: &[TkKind]) -> (r: Result<Self, Error>)
        ensures
            r == Self::spec_decode(tokens@),
            r matches Ok(t) ==> t.spec_size() <= tokens@.len(),
    {
        let tag = read_int(tokens, 0)?;
        if tag == 1 {
            let n: usize = tokens.len();
            let rest = vstd::slice::slice_subrange(tokens, 1, n);
            proof {
                assert(rest@ =~= tokens@.skip(1));
            }
            let st = StaticTransform::from_tokens(rest)?;
            Ok(Transform::Static(st))
        } else if tag == 0 {
            Ok(Transform::Empty)
        } else if tag == 2 {
            Err(Error::CurrentlyNotSupported)
        } else {
            Err(Error::InvalidTokenKind)
        }
    }
}

/// An attachment hanging off a node: two name strings, three flags and a
/// nested transform.
#[derive(Copy, Clone, Debug, PartialEq)]
pub struct Attachment<'a> {
    pub node_name: &'a [u8],
    pub bone_name: &'a [u8],
    pub flag_0: usize,
    pub flag_1: usize,
    pub flag_2: usize,
    pub transform: Transform,
}

impl<'a> Attachment<'a> {
    /// Number of tokens consumed: the five fixed fields plus the transform.
    pub open spec fn spec_size(self) -> int {
        5 + self.transform.spec_size()
    }

    /// Number of tokens consumed, as `spec_size`.
    pub fn size(&self) -> (r: usize)
        ensures
            r == self.spec_size(),
    {
        5 + self.transform.size()
    }

    /// Kind correctness of however much of the fixed fields is present.
    pub open spec fn spec_prefix_ok(s: Seq<TkKind<'a>>) -> bool {
        &&& (0 < s.len() ==> s[0].is_str_kind())
        &&& (1 < s.len() ==> s[1].is_str_kind())
        &&& (2 < s.len() ==> s[2].is_int_kind())
        &&& (3 < s.len() ==> s[3].is_int_kind())
        &&& (4 < s.len() ==> s[4].is_int_kind())
    }

    /// What decoding yields: the five fixed fields, then the transform.
    pub open spec fn spec_decode(s: Seq<TkKind<'a>>) -> Result<Attachment<'a>, Error> {
        if !Self::spec_prefix_ok(s) {
            Err(Error::InvalidTokenKind)
        } else if s.len() < 5 {
            Err(Error::ParseError(ParseError::UnexpectedEnd))
        } else {
            match Transform::spec_decode(s.skip(5)) {
                Err(e) => Err(e),
                Ok(t) => Ok(
                    Attachment {
                        node_name: s[0].spec_str_ref(),
                        bone_name: s[1].spec_str_ref(),
                        flag_0: s[2].spec_int(),
                        flag_1: s[3].spec_int(),
                        flag_2: s[4].spec_int(),
                        transform: t,
                    },
                ),
            }
        }
    }

    /// Decodes the attachment from the front of `tokens`.
    pub fn from_tokens(tokens: &[TkKind<'a>]) -> (r: Result<Self, Error>)
        ensures
            r == Self::spec_decode(tokens@),
            r matches Ok(a) ==> a.spec_size() <= tokens@.len(),
    {
        let node_name = read_str(tokens, 0)?;
        let bone_name = read_str(tokens, 1)?;
        let flag_0 = read_int(tokens, 2)?;
        let flag_1 = read_int(tokens, 3)?;
        let flag_2 = read_int(tokens, 4)?;
        let n: usize = tokens.len();
        let rest = vstd::slice::slice_subrange(tokens, 5, n);
        proof {
            assert(rest@ =~= tokens@.skip(5));
        }
        let transform = Transform::from_tokens(rest)?;
        Ok(Attachment { node_name, bone_name, flag_0, flag_1, flag_2, transform })
    }
}

} // verus!
