use crate::fetm::layout::{read_float, read_hex, read_int};
use crate::fetm::entityclasses::camera_base::{lemma_camera_base_prefix_stable, lemma_camera_base_truncation, CameraBase};
use crate::fetm::{Error, TkKind};
use crate::ParseError;
use vstd::prelude::*;

verus! {

/// A `CameraBase` followed by chase-camera tuning fields.
#[derive(Debug, PartialEq)]
pub struct ChaseCamera {
    pub base: CameraBase,
    pub field_0x64: usize,
    pub field_0x68: u32,
    pub field_0x6c: u32,
    pub field_0x70: u32,
    pub field_0x74: u32,
    pub field_0x78: u32,
    pub field_0x7c: u32,
    pub field_0x80: u32,
    pub field_0x84: u32,
}

impl ChaseCamera {
    /// Number of tokens this record consumes.
    pub const LENGTH: usize = 38;

    /// The record fits and every token it reads has the kind it expects.
    pub open spec fn spec_wf(s: Seq<TkKind>) -> bool {
        &&& CameraBase::spec_wf(s)
        &&& s.len() >= 38
        &&& s[29].is_int_kind()
        &&& s[30].is_float_kind()
        &&& s[31].is_float_kind()
        &&& s[32].is_float_kind()
        &&& s[33].is_float_kind()
        &&& s[34].is_float_kind()
        &&& s[35].is_float_kind()
        &&& s[36].is_float_kind()
        &&& s[37].is_float_kind()
    }

    /// Kind correctness of however much of the record is present.
    pub open spec fn spec_prefix_ok(s: Seq<TkKind>) -> bool {
        &&& CameraBase::spec_prefix_ok(s)
        &&& (29 < s.len() ==> s[29].is_int_kind())
        &&& (30 < s.len() ==> s[30].is_float_kind())
        &&& (31 < s.len() ==> s[31].is_float_kind())
        &&& (32 < s.len() ==> s[32].is_float_kind())
        &&& (33 < s.len() ==> s[33].is_float_kind())
        &&& (34 < s.len() ==> s[34].is_float_kind())
        &&& (35 < s.len() ==> s[35].is_float_kind())
        &&& (36 < s.len() ==> s[36].is_float_kind())
        &&& (37 < s.len() ==> s[37].is_float_kind())
    }

    /// The decoded record.
    pub open spec fn spec_value(s: Seq<TkKind>) -> ChaseCamera
        recommends
            Self::spec_wf(s),
    {
        (ChaseCamera {
            base: CameraBase::spec_value(s),
            field_0x64: s[29].spec_int(),
            field_0x68: s[30].spec_float_bits(),
            field_0x6c: s[31].spec_float_bits(),
            field_0x70: s[32].spec_float_bits(),
            field_0x74: s[33].spec_float_bits(),
            field_0x78: s[34].spec_float_bits(),
            field_0x7c: s[35].spec_float_bits(),
            field_0x80: s[36].spec_float_bits(),
            field_0x84: s[37].spec_float_bits(),
        })
    }

    /// What decoding yields on any token slice: the first failing read
    /// in index order classifies the error.
    pub open spec fn spec_decode(s: Seq<TkKind>) -> Result<ChaseCamera, Error> {
        match CameraBase::spec_decode(s) {
            Err(e) => Err(e),
            Ok(_) => Self::spec_decode_tail(s),
        }
    }

    /// Decode of the fields this record adds past its base.
    pub open spec fn spec_decode_tail(s: Seq<TkKind>) -> Result<ChaseCamera, Error> {
        if !((29 < s.len() ==> s[29].is_int_kind()) && (30 < s.len() ==> s[30].is_float_kind()) && (31 < s.len() ==> s[31].is_float_kind()) && (32 < s.len() ==> s[32].is_float_kind()) && (33 < s.len() ==> s[33].is_float_kind()) && (34 < s.len() ==> s[34].is_float_kind()) && (35 < s.len() ==> s[35].is_float_kind()) && (36 < s.len() ==> s[36].is_float_kind()) && (37 < s.len() ==> s[37].is_float_kind())) {
            Err(Error::InvalidTokenKind)
        } else if !(s.len() >= 38 && s[29].is_int_kind() && s[30].is_float_kind() && s[31].is_float_kind() && s[32].is_float_kind() && s[33].is_float_kind() && s[34].is_float_kind() && s[35].is_float_kind() && s[36].is_float_kind() && s[37].is_float_kind()) {
            Err(Error::ParseError(ParseError::UnexpectedEnd))
        } else {
            Ok(Self::spec_value(s))
        }
    }

    /// Decodes the record from the front of `tokens`, reading each field
    /// at its fixed position; exactly `spec_decode` of the tokens.
    pub fn from_tokens(tokens: &[TkKind]) -> (r: Result<Self, Error>)
        ensures
            r == Self::spec_decode(tokens@),
    {
        let base = CameraBase::from_tokens(tokens)?;
        let field_0x64 = read_int(tokens, 29)?;
        let field_0x68 = read_float(tokens, 30)?;
        let field_0x6c = read_float(tokens, 31)?;
        let field_0x70 = read_float(tokens, 32)?;
        let field_0x74 = read_float(tokens, 33)?;
        let field_0x78 = read_float(tokens, 34)?;
        let field_0x7c = read_float(tokens, 35)?;
        let field_0x80 = read_float(tokens, 36)?;
        let field_0x84 = read_float(tokens, 37)?;
        Ok(ChaseCamera {
            base,
            field_0x64,
            field_0x68,
            field_0x6c,
            field_0x70,
            field_0x74,
            field_0x78,
            field_0x7c,
            field_0x80,
            field_0x84,
        })
    }
}

/// The record reads only its own span: decoding ignores everything past
/// the first `ChaseCamera::LENGTH` tokens.
pub proof fn lemma_chase_camera_prefix_stable(s: Seq<TkKind>, k: int)
    requires
        ChaseCamera::LENGTH <= k <= s.len(),
    ensures
        ChaseCamera::spec_decode(s.take(k)) == ChaseCamera::spec_decode(s),
{
    let t = s.take(k);
    assert(forall|i: int| 0 <= i < k ==> t[i] == s[i]);
    lemma_camera_base_prefix_stable(s, k);
    if CameraBase::spec_decode(s) is Ok {
        assert(ChaseCamera::spec_decode_tail(t) == ChaseCamera::spec_decode_tail(s)) by {
            if ChaseCamera::spec_decode_tail(s) is Ok {
                assert(ChaseCamera::spec_value(t) == ChaseCamera::spec_value(s));
            }
        }
    }
}

/// Truncation safety: a strict prefix of a decodable record fails with
/// `UnexpectedEnd`, never anything else.
pub proof fn lemma_chase_camera_truncation(s: Seq<TkKind>, k: int)
    requires
        ChaseCamera::spec_decode(s) is Ok,
        0 <= k < ChaseCamera::LENGTH,
    ensures
        ChaseCamera::spec_decode(s.take(k)) == Err::<ChaseCamera, Error>(
            Error::ParseError(ParseError::UnexpectedEnd),
        ),
{
    let t = s.take(k);
    assert(forall|i: int| 0 <= i < k ==> t[i] == s[i]);
    if k < CameraBase::LENGTH {
        lemma_camera_base_truncation(s, k);
    } else {
        lemma_camera_base_prefix_stable(s, k);
    }
}
} // verus!
