use crate::fetm::layout::{read_float, read_hex, read_int};
use crate::fetm::{Error, TkKind};
use crate::ParseError;
use vstd::prelude::*;

verus! {

/// Shared prefix of the camera entity-class payloads. Its two embedded
/// action-list counts must be zero: the action-list layout was never
/// reverse-engineered, so a nonzero count is `CurrentlyNotSupported`.
#[derive(Debug, PartialEq)]
pub struct CameraBase {
    pub field_0x1c: usize,
    pub field_0x24: usize,
    pub field_0x25: usize,
    pub field_0x26: usize,
    pub field_0x27: usize,
    pub field_0x28: usize,
    pub action_list_0_count: usize,
    pub action_list_1_count: usize,
    pub field_0x38: usize,
    pub field_0x39: usize,
    pub field_0x3a: usize,
    pub field_0x3b: usize,
    pub field_0x3c: usize,
    pub field_0x3d: usize,
    pub field_0x3e: usize,
    pub field_0x3f: usize,
    pub field_0x40: u32,
    pub field_0x44: usize,
    pub field_0x48: usize,
    pub field_0x4c: u32,
    pub field_0x50: usize,
    pub field_0x51: usize,
    pub field_0x54: usize,
    pub field_0x5c: usize,
    pub field_0x5d: usize,
    pub field_0x5e: usize,
    pub field_0x5f: usize,
    pub field_0x60: usize,
    pub field_0x61: usize,
}

impl CameraBase {
    /// Number of tokens this record consumes.
    pub const LENGTH: usize = 29;

    /// The record fits and every token it reads has the kind it expects.
    pub open spec fn spec_wf(s: Seq<TkKind>) -> bool {
        &&& s.len() >= 29
        &&& s[0].is_hex_kind()
        &&& s[1].is_int_kind()
        &&& s[2].is_int_kind()
        &&& s[3].is_int_kind()
        &&& s[4].is_int_kind()
        &&& s[5].is_hex_kind()
        &&& s[6].is_int_kind()
        &&& s[7].is_int_kind()
        &&& s[8].is_int_kind()
        &&& s[9].is_int_kind()
        &&& s[10].is_int_kind()
        &&& s[11].is_int_kind()
        &&& s[12].is_int_kind()
        &&& s[13].is_int_kind()
        &&& s[14].is_int_kind()
        &&& s[15].is_int_kind()
        &&& s[16].is_float_kind()
        &&& s[17].is_int_kind()
        &&& s[18].is_int_kind()
        &&& s[19].is_float_kind()
        &&& s[20].is_int_kind()
        &&& s[21].is_int_kind()
        &&& s[22].is_hex_kind()
        &&& s[23].is_int_kind()
        &&& s[24].is_int_kind()
        &&& s[25].is_int_kind()
        &&& s[26].is_int_kind()
        &&& s[27].is_int_kind()
        &&& s[28].is_int_kind()
    }

    /// Kind correctness of however much of the record is present.
    pub open spec fn spec_prefix_ok(s: Seq<TkKind>) -> bool {
        &&& (0 < s.len() ==> s[0].is_hex_kind())
        &&& (1 < s.len() ==> s[1].is_int_kind())
        &&& (2 < s.len() ==> s[2].is_int_kind())
        &&& (3 < s.len() ==> s[3].is_int_kind())
        &&& (4 < s.len() ==> s[4].is_int_kind())
        &&& (5 < s.len() ==> s[5].is_hex_kind())
        &&& (6 < s.len() ==> s[6].is_int_kind())
        &&& (7 < s.len() ==> s[7].is_int_kind())
        &&& (8 < s.len() ==> s[8].is_int_kind())
        &&& (9 < s.len() ==> s[9].is_int_kind())
        &&& (10 < s.len() ==> s[10].is_int_kind())
        &&& (11 < s.len() ==> s[11].is_int_kind())
        &&& (12 < s.len() ==> s[12].is_int_kind())
        &&& (13 < s.len() ==> s[13].is_int_kind())
        &&& (14 < s.len() ==> s[14].is_int_kind())
        &&& (15 < s.len() ==> s[15].is_int_kind())
        &&& (16 < s.len() ==> s[16].is_float_kind())
        &&& (17 < s.len() ==> s[17].is_int_kind())
        &&& (18 < s.len() ==> s[18].is_int_kind())
        &&& (19 < s.len() ==> s[19].is_float_kind())
        &&& (20 < s.len() ==> s[20].is_int_kind())
        &&& (21 < s.len() ==> s[21].is_int_kind())
        &&& (22 < s.len() ==> s[22].is_hex_kind())
        &&& (23 < s.len() ==> s[23].is_int_kind())
        &&& (24 < s.len() ==> s[24].is_int_kind())
        &&& (25 < s.len() ==> s[25].is_int_kind())
        &&& (26 < s.len() ==> s[26].is_int_kind())
        &&& (27 < s.len() ==> s[27].is_int_kind())
        &&& (28 < s.len() ==> s[28].is_int_kind())
    }

    /// The decoded record.
    pub open spec fn spec_value(s: Seq<TkKind>) -> CameraBase
        recommends
            Self::spec_wf(s),
    {
        (CameraBase {
            field_0x1c: s[0].spec_hex(),
            field_0x24: s[1].spec_int(),
            field_0x25: s[2].spec_int(),
            field_0x26: s[3].spec_int(),
            field_0x27: s[4].spec_int(),
            field_0x28: s[5].spec_hex(),
            action_list_0_count: s[6].spec_int(),
            action_list_1_count: s[7].spec_int(),
            field_0x38: s[8].spec_int(),
            field_0x39: s[9].spec_int(),
            field_0x3a: s[10].spec_int(),
            field_0x3b: s[11].spec_int(),
            field_0x3c: s[12].spec_int(),
            field_0x3d: s[13].spec_int(),
            field_0x3e: s[14].spec_int(),
            field_0x3f: s[15].spec_int(),
            field_0x40: s[16].spec_float_bits(),
            field_0x44: s[17].spec_int(),
            field_0x48: s[18].spec_int(),
            field_0x4c: s[19].spec_float_bits(),
            field_0x50: s[20].spec_int(),
            field_0x51: s[21].spec_int(),
            field_0x54: s[22].spec_hex(),
            field_0x5c: s[23].spec_int(),
            field_0x5d: s[24].spec_int(),
            field_0x5e: s[25].spec_int(),
            field_0x5f: s[26].spec_int(),
            field_0x60: s[27].spec_int(),
            field_0x61: s[28].spec_int(),
        })
    }

    /// What decoding yields on any token slice: the first failing read
    /// in index order classifies the error.
    pub open spec fn spec_decode(s: Seq<TkKind>) -> Result<CameraBase, Error> {
        if !((0 < s.len() ==> s[0].is_hex_kind()) && (1 < s.len() ==> s[1].is_int_kind()) && (2 < s.len() ==> s[2].is_int_kind()) && (3 < s.len() ==> s[3].is_int_kind()) && (4 < s.len() ==> s[4].is_int_kind()) && (5 < s.len() ==> s[5].is_hex_kind()) && (6 < s.len() ==> s[6].is_int_kind()) && (7 < s.len() ==> s[7].is_int_kind()) && (8 < s.len() ==> s[8].is_int_kind()) && (9 < s.len() ==> s[9].is_int_kind()) && (10 < s.len() ==> s[10].is_int_kind()) && (11 < s.len() ==> s[11].is_int_kind()) && (12 < s.len() ==> s[12].is_int_kind()) && (13 < s.len() ==> s[13].is_int_kind()) && (14 < s.len() ==> s[14].is_int_kind()) && (15 < s.len() ==> s[15].is_int_kind()) && (16 < s.len() ==> s[16].is_float_kind()) && (17 < s.len() ==> s[17].is_int_kind()) && (18 < s.len() ==> s[18].is_int_kind()) && (19 < s.len() ==> s[19].is_float_kind()) && (20 < s.len() ==> s[20].is_int_kind()) && (21 < s.len() ==> s[21].is_int_kind()) && (22 < s.len() ==> s[22].is_hex_kind()) && (23 < s.len() ==> s[23].is_int_kind()) && (24 < s.len() ==> s[24].is_int_kind()) && (25 < s.len() ==> s[25].is_int_kind()) && (26 < s.len() ==> s[26].is_int_kind()) && (27 < s.len() ==> s[27].is_int_kind()) && (28 < s.len() ==> s[28].is_int_kind())) {
            Err(Error::InvalidTokenKind)
        } else if !(s.len() >= 29 && s[0].is_hex_kind() && s[1].is_int_kind() && s[2].is_int_kind() && s[3].is_int_kind() && s[4].is_int_kind() && s[5].is_hex_kind() && s[6].is_int_kind() && s[7].is_int_kind() && s[8].is_int_kind() && s[9].is_int_kind() && s[10].is_int_kind() && s[11].is_int_kind() && s[12].is_int_kind() && s[13].is_int_kind() && s[14].is_int_kind() && s[15].is_int_kind() && s[16].is_float_kind() && s[17].is_int_kind() && s[18].is_int_kind() && s[19].is_float_kind() && s[20].is_int_kind() && s[21].is_int_kind() && s[22].is_hex_kind() && s[23].is_int_kind() && s[24].is_int_kind() && s[25].is_int_kind() && s[26].is_int_kind() && s[27].is_int_kind() && s[28].is_int_kind()) {
            Err(Error::ParseError(ParseError::UnexpectedEnd))
        } else if s[6].spec_int() != 0 || s[7].spec_int() != 0 {
            Err(Error::CurrentlyNotSupported)
        } else {
            Ok(Self::spec_value(s))
        }
    }

    /// Decodes the record from the front of `tokens`, reading each field
    /// at its fixed position; exactly `spec_decode` of the tokens.
    /// Number of tokens consumed, as a method.
    pub fn size(&self) -> (r: usize)
        ensures
            r == CameraBase::LENGTH,
    {
        29
    }

    pub fn from_tokens(tokens: &[TkKind]) -> (r: Result<Self, Error>)
        ensures
            r == Self::spec_decode(tokens@),
    {
        let field_0x1c = read_hex(tokens, 0)?;
        let field_0x24 = read_int(tokens, 1)?;
        let field_0x25 = read_int(tokens, 2)?;
        let field_0x26 = read_int(tokens, 3)?;
        let field_0x27 = read_int(tokens, 4)?;
        let field_0x28 = read_hex(tokens, 5)?;
        let action_list_0_count = read_int(tokens, 6)?;
        let action_list_1_count = read_int(tokens, 7)?;
        let field_0x38 = read_int(tokens, 8)?;
        let field_0x39 = read_int(tokens, 9)?;
        let field_0x3a = read_int(tokens, 10)?;
        let field_0x3b = read_int(tokens, 11)?;
        let field_0x3c = read_int(tokens, 12)?;
        let field_0x3d = read_int(tokens, 13)?;
        let field_0x3e = read_int(tokens, 14)?;
        let field_0x3f = read_int(tokens, 15)?;
        let field_0x40 = read_float(tokens, 16)?;
        let field_0x44 = read_int(tokens, 17)?;
        let field_0x48 = read_int(tokens, 18)?;
        let field_0x4c = read_float(tokens, 19)?;
        let field_0x50 = read_int(tokens, 20)?;
        let field_0x51 = read_int(tokens, 21)?;
        let field_0x54 = read_hex(tokens, 22)?;
        let field_0x5c = read_int(tokens, 23)?;
        let field_0x5d = read_int(tokens, 24)?;
        let field_0x5e = read_int(tokens, 25)?;
        let field_0x5f = read_int(tokens, 26)?;
        let field_0x60 = read_int(tokens, 27)?;
        let field_0x61 = read_int(tokens, 28)?;
        if action_list_0_count != 0 || action_list_1_count != 0 {
            return Err(Error::CurrentlyNotSupported);
        }
        Ok(CameraBase {
            field_0x1c,
            field_0x24,
            field_0x25,
            field_0x26,
            field_0x27,
            field_0x28,
            action_list_0_count,
            action_list_1_count,
            field_0x38,
            field_0x39,
            field_0x3a,
            field_0x3b,
            field_0x3c,
            field_0x3d,
            field_0x3e,
            field_0x3f,
            field_0x40,
            field_0x44,
            field_0x48,
            field_0x4c,
            field_0x50,
            field_0x51,
            field_0x54,
            field_0x5c,
            field_0x5d,
            field_0x5e,
            field_0x5f,
            field_0x60,
            field_0x61,
        })
    }
}

/// The record reads only its own span: decoding ignores everything past
/// the first `CameraBase::LENGTH` tokens.
pub proof fn lemma_camera_base_prefix_stable(s: Seq<TkKind>, k: int)
    requires
        CameraBase::LENGTH <= k <= s.len(),
    ensures
        CameraBase::spec_decode(s.take(k)) == CameraBase::spec_decode(s),
{
    let t = s.take(k);
    assert(forall|i: int| 0 <= i < k ==> t[i] == s[i]);
    if CameraBase::spec_decode(s) is Ok {
        assert(CameraBase::spec_value(t) == CameraBase::spec_value(s));
    }
}

/// Truncation safety: a strict prefix of a decodable record fails with
/// `UnexpectedEnd`, never anything else.
pub proof fn lemma_camera_base_truncation(s: Seq<TkKind>, k: int)
    requires
        CameraBase::spec_decode(s) is Ok,
        0 <= k < CameraBase::LENGTH,
    ensures
        CameraBase::spec_decode(s.take(k)) == Err::<CameraBase, Error>(
            Error::ParseError(ParseError::UnexpectedEnd),
        ),
{
    let t = s.take(k);
    assert(forall|i: int| 0 <= i < k ==> t[i] == s[i]);
}
} // verus!
