use crate::fetm::layout::{read_float, read_hex, read_int};
use crate::fetm::{Error, TkKind};
use crate::ParseError;
use vstd::prelude::*;

verus! {

/// A fixed-shape swipe-effect payload.
#[derive(Debug, PartialEq)]
pub struct SwipeEffect {
    pub field_0x1c: usize,
    pub field_0x24: usize,
    pub field_0x28: usize,
    pub field_0x2c: usize,
    pub field_0x30: usize,
    pub field_0x34: u32,
    pub field_0x38: u32,
    pub field_0x3c: u32,
    pub field_0x44: u32,
    pub field_0x48: u32,
    pub field_0x4c: u32,
    pub field_0x54: usize,
    pub field_0x5c: usize,
    pub filed_0x60: u32,
    pub field_0x64: usize,
    pub field_0x65: usize,
    pub field_0x66: usize,
    pub field_0x67: usize,
    pub field_0x68: usize,
    pub field_0x6c: usize,
    pub field_0x6d: usize,
    pub field_0x6e: usize,
    pub field_0x70: u32,
    pub field_0x74: usize,
    pub field_0x78: u32,
}

impl SwipeEffect {
    /// Number of tokens this record consumes.
    pub const LENGTH: usize = 25;

    /// The record fits and every token it reads has the kind it expects.
    pub open spec fn spec_wf(s: Seq<TkKind>) -> bool {
        &&& s.len() >= 25
        &&& s[0].is_hex_kind()
        &&& s[1].is_hex_kind()
        &&& s[2].is_hex_kind()
        &&& s[3].is_hex_kind()
        &&& s[4].is_hex_kind()
        &&& s[5].is_float_kind()
        &&& s[6].is_float_kind()
        &&& s[7].is_float_kind()
        &&& s[8].is_float_kind()
        &&& s[9].is_float_kind()
        &&& s[10].is_float_kind()
        &&& s[11].is_hex_kind()
        &&& s[12].is_int_kind()
        &&& s[13].is_float_kind()
        &&& s[14].is_int_kind()
        &&& s[15].is_int_kind()
        &&& s[16].is_int_kind()
        &&& s[17].is_int_kind()
        &&& s[18].is_int_kind()
        &&& s[19].is_int_kind()
        &&& s[20].is_int_kind()
        &&& s[21].is_int_kind()
        &&& s[22].is_float_kind()
        &&& s[23].is_int_kind()
        &&& s[24].is_float_kind()
    }

    /// Kind correctness of however much of the record is present.
    pub open spec fn spec_prefix_ok(s: Seq<TkKind>) -> bool {
        &&& (0 < s.len() ==> s[0].is_hex_kind())
        &&& (1 < s.len() ==> s[1].is_hex_kind())
        &&& (2 < s.len() ==> s[2].is_hex_kind())
        &&& (3 < s.len() ==> s[3].is_hex_kind())
        &&& (4 < s.len() ==> s[4].is_hex_kind())
        &&& (5 < s.len() ==> s[5].is_float_kind())
        &&& (6 < s.len() ==> s[6].is_float_kind())
        &&& (7 < s.len() ==> s[7].is_float_kind())
        &&& (8 < s.len() ==> s[8].is_float_kind())
        &&& (9 < s.len() ==> s[9].is_float_kind())
        &&& (10 < s.len() ==> s[10].is_float_kind())
        &&& (11 < s.len() ==> s[11].is_hex_kind())
        &&& (12 < s.len() ==> s[12].is_int_kind())
        &&& (13 < s.len() ==> s[13].is_float_kind())
        &&& (14 < s.len() ==> s[14].is_int_kind())
        &&& (15 < s.len() ==> s[15].is_int_kind())
        &&& (16 < s.len() ==> s[16].is_int_kind())
        &&& (17 < s.len() ==> s[17].is_int_kind())
        &&& (18 < s.len() ==> s[18].is_int_kind())
        &&& (19 < s.len() ==> s[19].is_int_kind())
        &&& (20 < s.len() ==> s[20].is_int_kind())
        &&& (21 < s.len() ==> s[21].is_int_kind())
        &&& (22 < s.len() ==> s[22].is_float_kind())
        &&& (23 < s.len() ==> s[23].is_int_kind())
        &&& (24 < s.len() ==> s[24].is_float_kind())
    }

    /// The decoded record.
    pub open spec fn spec_value(s: Seq<TkKind>) -> SwipeEffect
        recommends
            Self::spec_wf(s),
    {
        (SwipeEffect {
            field_0x1c: s[0].spec_hex(),
            field_0x24: s[1].spec_hex(),
            field_0x28: s[2].spec_hex(),
            field_0x2c: s[3].spec_hex(),
            field_0x30: s[4].spec_hex(),
            field_0x34: s[5].spec_float_bits(),
            field_0x38: s[6].spec_float_bits(),
            field_0x3c: s[7].spec_float_bits(),
            field_0x44: s[8].spec_float_bits(),
            field_0x48: s[9].spec_float_bits(),
            field_0x4c: s[10].spec_float_bits(),
            field_0x54: s[11].spec_hex(),
            field_0x5c: s[12].spec_int(),
            filed_0x60: s[13].spec_float_bits(),
            field_0x64: s[14].spec_int(),
            field_0x65: s[15].spec_int(),
            field_0x66: s[16].spec_int(),
            field_0x67: s[17].spec_int(),
            field_0x68: s[18].spec_int(),
            field_0x6c: s[19].spec_int(),
            field_0x6d: s[20].spec_int(),
            field_0x6e: s[21].spec_int(),
            field_0x70: s[22].spec_float_bits(),
            field_0x74: s[23].spec_int(),
            field_0x78: s[24].spec_float_bits(),
        })
    }

    /// What decoding yields on any token slice: the first failing read
    /// in index order classifies the error.
    pub open spec fn spec_decode(s: Seq<TkKind>) -> Result<SwipeEffect, Error> {
        if !((0 < s.len() ==> s[0].is_hex_kind()) && (1 < s.len() ==> s[1].is_hex_kind()) && (2 < s.len() ==> s[2].is_hex_kind()) && (3 < s.len() ==> s[3].is_hex_kind()) && (4 < s.len() ==> s[4].is_hex_kind()) && (5 < s.len() ==> s[5].is_float_kind()) && (6 < s.len() ==> s[6].is_float_kind()) && (7 < s.len() ==> s[7].is_float_kind()) && (8 < s.len() ==> s[8].is_float_kind()) && (9 < s.len() ==> s[9].is_float_kind()) && (10 < s.len() ==> s[10].is_float_kind()) && (11 < s.len() ==> s[11].is_hex_kind()) && (12 < s.len() ==> s[12].is_int_kind()) && (13 < s.len() ==> s[13].is_float_kind()) && (14 < s.len() ==> s[14].is_int_kind()) && (15 < s.len() ==> s[15].is_int_kind()) && (16 < s.len() ==> s[16].is_int_kind()) && (17 < s.len() ==> s[17].is_int_kind()) && (18 < s.len() ==> s[18].is_int_kind()) && (19 < s.len() ==> s[19].is_int_kind()) && (20 < s.len() ==> s[20].is_int_kind()) && (21 < s.len() ==> s[21].is_int_kind()) && (22 < s.len() ==> s[22].is_float_kind()) && (23 < s.len() ==> s[23].is_int_kind()) && (24 < s.len() ==> s[24].is_float_kind())) {
            Err(Error::InvalidTokenKind)
        } else if !(s.len() >= 25 && s[0].is_hex_kind() && s[1].is_hex_kind() && s[2].is_hex_kind() && s[3].is_hex_kind() && s[4].is_hex_kind() && s[5].is_float_kind() && s[6].is_float_kind() && s[7].is_float_kind() && s[8].is_float_kind() && s[9].is_float_kind() && s[10].is_float_kind() && s[11].is_hex_kind() && s[12].is_int_kind() && s[13].is_float_kind() && s[14].is_int_kind() && s[15].is_int_kind() && s[16].is_int_kind() && s[17].is_int_kind() && s[18].is_int_kind() && s[19].is_int_kind() && s[20].is_int_kind() && s[21].is_int_kind() && s[22].is_float_kind() && s[23].is_int_kind() && s[24].is_float_kind()) {
            Err(Error::ParseError(ParseError::UnexpectedEnd))
        } else {
            Ok(Self::spec_value(s))
        }
    }

    /// Decodes the record from the front of `tokens`, reading each field
    /// at its fixed position; exactly `spec_decode` of the tokens.
    pub fn from_tokens(tokens: &[TkKind]) -> (r: Result<Self, Error>)
        ensures
            r == Self::spec_decode(tokens@),
    {
        let field_0x1c = read_hex(tokens, 0)?;
        let field_0x24 = read_hex(tokens, 1)?;
        let field_0x28 = read_hex(tokens, 2)?;
        let field_0x2c = read_hex(tokens, 3)?;
        let field_0x30 = read_hex(tokens, 4)?;
        let field_0x34 = read_float(tokens, 5)?;
        let field_0x38 = read_float(tokens, 6)?;
        let field_0x3c = read_float(tokens, 7)?;
        let field_0x44 = read_float(tokens, 8)?;
        let field_0x48 = read_float(tokens, 9)?;
        let field_0x4c = read_float(tokens, 10)?;
        let field_0x54 = read_hex(tokens, 11)?;
        let field_0x5c = read_int(tokens, 12)?;
        let filed_0x60 = read_float(tokens, 13)?;
        let field_0x64 = read_int(tokens, 14)?;
        let field_0x65 = read_int(tokens, 15)?;
        let field_0x66 = read_int(tokens, 16)?;
        let field_0x67 = read_int(tokens, 17)?;
        let field_0x68 = read_int(tokens, 18)?;
        let field_0x6c = read_int(tokens, 19)?;
        let field_0x6d = read_int(tokens, 20)?;
        let field_0x6e = read_int(tokens, 21)?;
        let field_0x70 = read_float(tokens, 22)?;
        let field_0x74 = read_int(tokens, 23)?;
        let field_0x78 = read_float(tokens, 24)?;
        Ok(SwipeEffect {
            field_0x1c,
            field_0x24,
            field_0x28,
            field_0x2c,
            field_0x30,
            field_0x34,
            field_0x38,
            field_0x3c,
            field_0x44,
            field_0x48,
            field_0x4c,
            field_0x54,
            field_0x5c,
            filed_0x60,
            field_0x64,
            field_0x65,
            field_0x66,
            field_0x67,
            field_0x68,
            field_0x6c,
            field_0x6d,
            field_0x6e,
            field_0x70,
            field_0x74,
            field_0x78,
        })
    }
}

/// The record reads only its own span: decoding ignores everything past
/// the first `SwipeEffect::LENGTH` tokens.
pub proof fn lemma_swipe_effect_prefix_stable(s: Seq<TkKind>, k: int)
    requires
        SwipeEffect::LENGTH <= k <= s.len(),
    ensures
        SwipeEffect::spec_decode(s.take(k)) == SwipeEffect::spec_decode(s),
{
    let t = s.take(k);
    assert(forall|i: int| 0 <= i < k ==> t[i] == s[i]);
    if SwipeEffect::spec_decode(s) is Ok {
        assert(SwipeEffect::spec_value(t) == SwipeEffect::spec_value(s));
    }
}

/// Truncation safety: a strict prefix of a decodable record fails with
/// `UnexpectedEnd`, never anything else.
pub proof fn lemma_swipe_effect_truncation(s: Seq<TkKind>, k: int)
    requires
        SwipeEffect::spec_decode(s) is Ok,
        0 <= k < SwipeEffect::LENGTH,
    ensures
        SwipeEffect::spec_decode(s.take(k)) == Err::<SwipeEffect, Error>(
            Error::ParseError(ParseError::UnexpectedEnd),
        ),
{
    let t = s.take(k);
    assert(forall|i: int| 0 <= i < k ==> t[i] == s[i]);
}
} // verus!
