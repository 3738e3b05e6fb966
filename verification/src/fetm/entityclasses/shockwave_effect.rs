use crate::fetm::layout::{read_float, read_hex, read_int};
use crate::fetm::{Error, TkKind};
use crate::ParseError;
use vstd::prelude::*;

verus! {

/// A fixed-shape shockwave-effect payload.
#[derive(Debug, PartialEq)]
pub struct ShockwaveEffect {
    pub field_0x1c: usize,
    pub field_0x24: usize,
    pub field_0x28: u32,
    pub field_0x2c: usize,
    pub field_0x30: usize,
    pub field_0x34: usize,
    pub field_0x35: usize,
    pub field_0x36: usize,
    pub field_0x37: usize,
    pub field_0x38: usize,
    pub field_0x3c: u32,
    pub field_0x40: u32,
    pub field_0x44: u32,
    pub field_0x48: u32,
}

impl ShockwaveEffect {
    /// Number of tokens this record consumes.
    pub const LENGTH: usize = 14;

    /// The record fits and every token it reads has the kind it expects.
    pub open spec fn spec_wf(s: Seq<TkKind>) -> bool {
        &&& s.len() >= 14
        &&& s[0].is_hex_kind()
        &&& s[1].is_int_kind()
        &&& s[2].is_float_kind()
        &&& s[3].is_int_kind()
        &&& s[4].is_int_kind()
        &&& s[5].is_int_kind()
        &&& s[6].is_int_kind()
        &&& s[7].is_int_kind()
        &&& s[8].is_int_kind()
        &&& s[9].is_int_kind()
        &&& s[10].is_float_kind()
        &&& s[11].is_float_kind()
        &&& s[12].is_float_kind()
        &&& s[13].is_float_kind()
    }

    /// Kind correctness of however much of the record is present.
    pub open spec fn spec_prefix_ok(s: Seq<TkKind>) -> bool {
        &&& (0 < s.len() ==> s[0].is_hex_kind())
        &&& (1 < s.len() ==> s[1].is_int_kind())
        &&& (2 < s.len() ==> s[2].is_float_kind())
        &&& (3 < s.len() ==> s[3].is_int_kind())
        &&& (4 < s.len() ==> s[4].is_int_kind())
        &&& (5 < s.len() ==> s[5].is_int_kind())
        &&& (6 < s.len() ==> s[6].is_int_kind())
        &&& (7 < s.len() ==> s[7].is_int_kind())
        &&& (8 < s.len() ==> s[8].is_int_kind())
        &&& (9 < s.len() ==> s[9].is_int_kind())
        &&& (10 < s.len() ==> s[10].is_float_kind())
        &&& (11 < s.len() ==> s[11].is_float_kind())
        &&& (12 < s.len() ==> s[12].is_float_kind())
        &&& (13 < s.len() ==> s[13].is_float_kind())
    }

    /// The decoded record.
    pub open spec fn spec_value(s: Seq<TkKind>) -> ShockwaveEffect
        recommends
            Self::spec_wf(s),
    {
        (ShockwaveEffect {
            field_0x1c: s[0].spec_hex(),
            field_0x24: s[1].spec_int(),
            field_0x28: s[2].spec_float_bits(),
            field_0x2c: s[3].spec_int(),
            field_0x30: s[4].spec_int(),
            field_0x34: s[5].spec_int(),
            field_0x35: s[6].spec_int(),
            field_0x36: s[7].spec_int(),
            field_0x37: s[8].spec_int(),
            field_0x38: s[9].spec_int(),
            field_0x3c: s[10].spec_float_bits(),
            field_0x40: s[11].spec_float_bits(),
            field_0x44: s[12].spec_float_bits(),
            field_0x48: s[13].spec_float_bits(),
        })
    }

    /// What decoding yields on any token slice: the first failing read
    /// in index order classifies the error.
    pub open spec fn spec_decode(s: Seq<TkKind>) -> Result<ShockwaveEffect, Error> {
        if !((0 < s.len() ==> s[0].is_hex_kind()) && (1 < s.len() ==> s[1].is_int_kind()) && (2 < s.len() ==> s[2].is_float_kind()) && (3 < s.len() ==> s[3].is_int_kind()) && (4 < s.len() ==> s[4].is_int_kind()) && (5 < s.len() ==> s[5].is_int_kind()) && (6 < s.len() ==> s[6].is_int_kind()) && (7 < s.len() ==> s[7].is_int_kind()) && (8 < s.len() ==> s[8].is_int_kind()) && (9 < s.len() ==> s[9].is_int_kind()) && (10 < s.len() ==> s[10].is_float_kind()) && (11 < s.len() ==> s[11].is_float_kind()) && (12 < s.len() ==> s[12].is_float_kind()) && (13 < s.len() ==> s[13].is_float_kind())) {
            Err(Error::InvalidTokenKind)
        } else if !(s.len() >= 14 && s[0].is_hex_kind() && s[1].is_int_kind() && s[2].is_float_kind() && s[3].is_int_kind() && s[4].is_int_kind() && s[5].is_int_kind() && s[6].is_int_kind() && s[7].is_int_kind() && s[8].is_int_kind() && s[9].is_int_kind() && s[10].is_float_kind() && s[11].is_float_kind() && s[12].is_float_kind() && s[13].is_float_kind()) {
            Err(Error::ParseError(ParseError::UnexpectedEnd))
        } else {
            Ok(Self::spec_value(s))
        }
    }

    /// Decodes the record from the front of `tokens`, reading each field
    /// at its fixed position; exactly `spec_decode` of the tokens.
    pub fn from_tokens(tokens: &[TkKind]) -> (r: Result<Self, Error>)
        ensures
            r == Self::spec_decode(tokens@),
    {
        let field_0x1c = read_hex(tokens, 0)?;
        let field_0x24 = read_int(tokens, 1)?;
        let field_0x28 = read_float(tokens, 2)?;
        let field_0x2c = read_int(tokens, 3)?;
        let field_0x30 = read_int(tokens, 4)?;
        let field_0x34 = read_int(tokens, 5)?;
        let field_0x35 = read_int(tokens, 6)?;
        let field_0x36 = read_int(tokens, 7)?;
        let field_0x37 = read_int(tokens, 8)?;
        let field_0x38 = read_int(tokens, 9)?;
        let field_0x3c = read_float(tokens, 10)?;
        let field_0x40 = read_float(tokens, 11)?;
        let field_0x44 = read_float(tokens, 12)?;
        let field_0x48 = read_float(tokens, 13)?;
        Ok(ShockwaveEffect {
            field_0x1c,
            field_0x24,
            field_0x28,
            field_0x2c,
            field_0x30,
            field_0x34,
            field_0x35,
            field_0x36,
            field_0x37,
            field_0x38,
            field_0x3c,
            field_0x40,
            field_0x44,
            field_0x48,
        })
    }
}

/// The record reads only its own span: decoding ignores everything past
/// the first `ShockwaveEffect::LENGTH` tokens.
pub proof fn lemma_shockwave_effect_prefix_stable(s: Seq<TkKind>, k: int)
    requires
        ShockwaveEffect::LENGTH <= k <= s.len(),
    ensures
        ShockwaveEffect::spec_decode(s.take(k)) == ShockwaveEffect::spec_decode(s),
{
    let t = s.take(k);
    assert(forall|i: int| 0 <= i < k ==> t[i] == s[i]);
    if ShockwaveEffect::spec_decode(s) is Ok {
        assert(ShockwaveEffect::spec_value(t) == ShockwaveEffect::spec_value(s));
    }
}

/// Truncation safety: a strict prefix of a decodable record fails with
/// `UnexpectedEnd`, never anything else.
pub proof fn lemma_shockwave_effect_truncation(s: Seq<TkKind>, k: int)
    requires
        ShockwaveEffect::spec_decode(s) is Ok,
        0 <= k < ShockwaveEffect::LENGTH,
    ensures
        ShockwaveEffect::spec_decode(s.take(k)) == Err::<ShockwaveEffect, Error>(
            Error::ParseError(ParseError::UnexpectedEnd),
        ),
{
    let t = s.take(k);
    assert(forall|i: int| 0 <= i < k ==> t[i] == s[i]);
}
} // verus!
