use crate::fetm::layout::{read_float, read_hex, read_int};
use crate::fetm::{Error, TkKind};
use crate::ParseError;
use vstd::prelude::*;

verus! {

/// Shared prefix of every prop-like entity-class payload: 39 tokens of
/// placement, render and physics tuning fields.
#[derive(Debug, PartialEq)]
pub struct PropBase {
    pub field_0x1c: usize,
    pub field_0x20: u32,
    pub field_0x24: usize,
    pub field_0x25: usize,
    pub field_0x28: u32,
    pub field_0x2c: u32,
    pub field_0x30: usize,
    pub field_0x34: usize,
    pub field_0x38: usize,
    pub field_0x3c: u32,
    pub field_0x40: u32,
    pub field_0x44: (usize, usize, usize, usize),
    pub field_0x48: usize,
    pub field_0x50: usize,
    pub field_0x54: usize,
    pub field_0x58: u32,
    pub field_0x5c: usize,
    pub field_0x60: usize,
    pub field_0x64: u32,
    pub field_0x68: usize,
    pub field_0x69: usize,
    pub field_0x6a: usize,
    pub field_0x6c: u32,
    pub field_0x70: u32,
    pub field_0x74: usize,
    pub field_0x75: usize,
    pub field_0x76: usize,
    pub field_0x77: usize,
    pub field_0x78: usize,
    pub field_0x7c: u32,
    pub field_0x80: usize,
    pub field_0x81: usize,
    pub field_0x84: usize,
    pub field_0x88: usize,
    pub field_0x8c: usize,
    pub field_0x94: usize,
}

impl PropBase {
    /// Number of tokens this record consumes.
    pub const SIZE: usize = 39;

    /// The record fits and every token it reads has the kind it expects.
    pub open spec fn spec_wf(s: Seq<TkKind>) -> bool {
        &&& s.len() >= 39
        &&& s[0].is_int_kind()
        &&& s[1].is_float_kind()
        &&& s[2].is_int_kind()
        &&& s[3].is_int_kind()
        &&& s[4].is_float_kind()
        &&& s[5].is_float_kind()
        &&& s[6].is_int_kind()
        &&& s[7].is_int_kind()
        &&& s[8].is_int_kind()
        &&& s[9].is_float_kind()
        &&& s[10].is_float_kind()
        &&& s[11].is_int_kind()
        &&& s[12].is_int_kind()
        &&& s[13].is_int_kind()
        &&& s[14].is_int_kind()
        &&& s[15].is_hex_kind()
        &&& s[16].is_int_kind()
        &&& s[17].is_int_kind()
        &&& s[18].is_float_kind()
        &&& s[19].is_hex_kind()
        &&& s[20].is_hex_kind()
        &&& s[21].is_float_kind()
        &&& s[22].is_int_kind()
        &&& s[23].is_int_kind()
        &&& s[24].is_int_kind()
        &&& s[25].is_float_kind()
        &&& s[26].is_float_kind()
        &&& s[27].is_int_kind()
        &&& s[28].is_int_kind()
        &&& s[29].is_int_kind()
        &&& s[30].is_int_kind()
        &&& s[31].is_int_kind()
        &&& s[32].is_float_kind()
        &&& s[33].is_int_kind()
        &&& s[34].is_int_kind()
        &&& s[35].is_hex_kind()
        &&& s[36].is_hex_kind()
        &&& s[37].is_hex_kind()
        &&& s[38].is_int_kind()
    }

    /// Kind correctness of however much of the record is present.
    pub open spec fn spec_prefix_ok(s: Seq<TkKind>) -> bool {
        &&& (0 < s.len() ==> s[0].is_int_kind())
        &&& (1 < s.len() ==> s[1].is_float_kind())
        &&& (2 < s.len() ==> s[2].is_int_kind())
        &&& (3 < s.len() ==> s[3].is_int_kind())
        &&& (4 < s.len() ==> s[4].is_float_kind())
        &&& (5 < s.len() ==> s[5].is_float_kind())
        &&& (6 < s.len() ==> s[6].is_int_kind())
        &&& (7 < s.len() ==> s[7].is_int_kind())
        &&& (8 < s.len() ==> s[8].is_int_kind())
        &&& (9 < s.len() ==> s[9].is_float_kind())
        &&& (10 < s.len() ==> s[10].is_float_kind())
        &&& (11 < s.len() ==> s[11].is_int_kind())
        &&& (12 < s.len() ==> s[12].is_int_kind())
        &&& (13 < s.len() ==> s[13].is_int_kind())
        &&& (14 < s.len() ==> s[14].is_int_kind())
        &&& (15 < s.len() ==> s[15].is_hex_kind())
        &&& (16 < s.len() ==> s[16].is_int_kind())
        &&& (17 < s.len() ==> s[17].is_int_kind())
        &&& (18 < s.len() ==> s[18].is_float_kind())
        &&& (19 < s.len() ==> s[19].is_hex_kind())
        &&& (20 < s.len() ==> s[20].is_hex_kind())
        &&& (21 < s.len() ==> s[21].is_float_kind())
        &&& (22 < s.len() ==> s[22].is_int_kind())
        &&& (23 < s.len() ==> s[23].is_int_kind())
        &&& (24 < s.len() ==> s[24].is_int_kind())
        &&& (25 < s.len() ==> s[25].is_float_kind())
        &&& (26 < s.len() ==> s[26].is_float_kind())
        &&& (27 < s.len() ==> s[27].is_int_kind())
        &&& (28 < s.len() ==> s[28].is_int_kind())
        &&& (29 < s.len() ==> s[29].is_int_kind())
        &&& (30 < s.len() ==> s[30].is_int_kind())
        &&& (31 < s.len() ==> s[31].is_int_kind())
        &&& (32 < s.len() ==> s[32].is_float_kind())
        &&& (33 < s.len() ==> s[33].is_int_kind())
        &&& (34 < s.len() ==> s[34].is_int_kind())
        &&& (35 < s.len() ==> s[35].is_hex_kind())
        &&& (36 < s.len() ==> s[36].is_hex_kind())
        &&& (37 < s.len() ==> s[37].is_hex_kind())
        &&& (38 < s.len() ==> s[38].is_int_kind())
    }

    /// The decoded record.
    pub open spec fn spec_value(s: Seq<TkKind>) -> PropBase
        recommends
            Self::spec_wf(s),
    {
        (PropBase {
            field_0x1c: s[0].spec_int(),
            field_0x20: s[1].spec_float_bits(),
            field_0x24: s[2].spec_int(),
            field_0x25: s[3].spec_int(),
            field_0x28: s[4].spec_float_bits(),
            field_0x2c: s[5].spec_float_bits(),
            field_0x30: s[6].spec_int(),
            field_0x34: s[7].spec_int(),
            field_0x38: s[8].spec_int(),
            field_0x3c: s[9].spec_float_bits(),
            field_0x40: s[10].spec_float_bits(),
            field_0x44: (s[11].spec_int(), s[12].spec_int(), s[13].spec_int(), s[14].spec_int()),
            field_0x48: s[15].spec_hex(),
            field_0x50: s[16].spec_int(),
            field_0x54: s[17].spec_int(),
            field_0x58: s[18].spec_float_bits(),
            field_0x5c: s[19].spec_hex(),
            field_0x60: s[20].spec_hex(),
            field_0x64: s[21].spec_float_bits(),
            field_0x68: s[22].spec_int(),
            field_0x69: s[23].spec_int(),
            field_0x6a: s[24].spec_int(),
            field_0x6c: s[25].spec_float_bits(),
            field_0x70: s[26].spec_float_bits(),
            field_0x74: s[27].spec_int(),
            field_0x75: s[28].spec_int(),
            field_0x76: s[29].spec_int(),
            field_0x77: s[30].spec_int(),
            field_0x78: s[31].spec_int(),
            field_0x7c: s[32].spec_float_bits(),
            field_0x80: s[33].spec_int(),
            field_0x81: s[34].spec_int(),
            field_0x84: s[35].spec_hex(),
            field_0x88: s[36].spec_hex(),
            field_0x8c: s[37].spec_hex(),
            field_0x94: s[38].spec_int(),
        })
    }

    /// What decoding yields on any token slice: the first failing read
    /// in index order classifies the error.
    pub open spec fn spec_decode(s: Seq<TkKind>) -> Result<PropBase, Error> {
        if !((0 < s.len() ==> s[0].is_int_kind()) && (1 < s.len() ==> s[1].is_float_kind()) && (2 < s.len() ==> s[2].is_int_kind()) && (3 < s.len() ==> s[3].is_int_kind()) && (4 < s.len() ==> s[4].is_float_kind()) && (5 < s.len() ==> s[5].is_float_kind()) && (6 < s.len() ==> s[6].is_int_kind()) && (7 < s.len() ==> s[7].is_int_kind()) && (8 < s.len() ==> s[8].is_int_kind()) && (9 < s.len() ==> s[9].is_float_kind()) && (10 < s.len() ==> s[10].is_float_kind()) && (11 < s.len() ==> s[11].is_int_kind()) && (12 < s.len() ==> s[12].is_int_kind()) && (13 < s.len() ==> s[13].is_int_kind()) && (14 < s.len() ==> s[14].is_int_kind()) && (15 < s.len() ==> s[15].is_hex_kind()) && (16 < s.len() ==> s[16].is_int_kind()) && (17 < s.len() ==> s[17].is_int_kind()) && (18 < s.len() ==> s[18].is_float_kind()) && (19 < s.len() ==> s[19].is_hex_kind()) && (20 < s.len() ==> s[20].is_hex_kind()) && (21 < s.len() ==> s[21].is_float_kind()) && (22 < s.len() ==> s[22].is_int_kind()) && (23 < s.len() ==> s[23].is_int_kind()) && (24 < s.len() ==> s[24].is_int_kind()) && (25 < s.len() ==> s[25].is_float_kind()) && (26 < s.len() ==> s[26].is_float_kind()) && (27 < s.len() ==> s[27].is_int_kind()) && (28 < s.len() ==> s[28].is_int_kind()) && (29 < s.len() ==> s[29].is_int_kind()) && (30 < s.len() ==> s[30].is_int_kind()) && (31 < s.len() ==> s[31].is_int_kind()) && (32 < s.len() ==> s[32].is_float_kind()) && (33 < s.len() ==> s[33].is_int_kind()) && (34 < s.len() ==> s[34].is_int_kind()) && (35 < s.len() ==> s[35].is_hex_kind()) && (36 < s.len() ==> s[36].is_hex_kind()) && (37 < s.len() ==> s[37].is_hex_kind()) && (38 < s.len() ==> s[38].is_int_kind())) {
            Err(Error::InvalidTokenKind)
        } else if !(s.len() >= 39 && s[0].is_int_kind() && s[1].is_float_kind() && s[2].is_int_kind() && s[3].is_int_kind() && s[4].is_float_kind() && s[5].is_float_kind() && s[6].is_int_kind() && s[7].is_int_kind() && s[8].is_int_kind() && s[9].is_float_kind() && s[10].is_float_kind() && s[11].is_int_kind() && s[12].is_int_kind() && s[13].is_int_kind() && s[14].is_int_kind() && s[15].is_hex_kind() && s[16].is_int_kind() && s[17].is_int_kind() && s[18].is_float_kind() && s[19].is_hex_kind() && s[20].is_hex_kind() && s[21].is_float_kind() && s[22].is_int_kind() && s[23].is_int_kind() && s[24].is_int_kind() && s[25].is_float_kind() && s[26].is_float_kind() && s[27].is_int_kind() && s[28].is_int_kind() && s[29].is_int_kind() && s[30].is_int_kind() && s[31].is_int_kind() && s[32].is_float_kind() && s[33].is_int_kind() && s[34].is_int_kind() && s[35].is_hex_kind() && s[36].is_hex_kind() && s[37].is_hex_kind() && s[38].is_int_kind()) {
            Err(Error::ParseError(ParseError::UnexpectedEnd))
        } else {
            Ok(Self::spec_value(s))
        }
    }

    /// Decodes the record from the front of `tokens`, reading each field
    /// at its fixed position; exactly `spec_decode` of the tokens.
    pub fn from_tokens(tokens: &[TkKind]) -> (r: Result<Self, Error>)
        ensures
            r == Self::spec_decode(tokens@),
    {
        let field_0x1c = read_int(tokens, 0)?;
        let field_0x20 = read_float(tokens, 1)?;
        let field_0x24 = read_int(tokens, 2)?;
        let field_0x25 = read_int(tokens, 3)?;
        let field_0x28 = read_float(tokens, 4)?;
        let field_0x2c = read_float(tokens, 5)?;
        let field_0x30 = read_int(tokens, 6)?;
        let field_0x34 = read_int(tokens, 7)?;
        let field_0x38 = read_int(tokens, 8)?;
        let field_0x3c = read_float(tokens, 9)?;
        let field_0x40 = read_float(tokens, 10)?;
        let field_0x44_0 = read_int(tokens, 11)?;
        let field_0x44_1 = read_int(tokens, 12)?;
        let field_0x44_2 = read_int(tokens, 13)?;
        let field_0x44_3 = read_int(tokens, 14)?;
        let field_0x48 = read_hex(tokens, 15)?;
        let field_0x50 = read_int(tokens, 16)?;
        let field_0x54 = read_int(tokens, 17)?;
        let field_0x58 = read_float(tokens, 18)?;
        let field_0x5c = read_hex(tokens, 19)?;
        let field_0x60 = read_hex(tokens, 20)?;
        let field_0x64 = read_float(tokens, 21)?;
        let field_0x68 = read_int(tokens, 22)?;
        let field_0x69 = read_int(tokens, 23)?;
        let field_0x6a = read_int(tokens, 24)?;
        let field_0x6c = read_float(tokens, 25)?;
        let field_0x70 = read_float(tokens, 26)?;
        let field_0x74 = read_int(tokens, 27)?;
        let field_0x75 = read_int(tokens, 28)?;
        let field_0x76 = read_int(tokens, 29)?;
        let field_0x77 = read_int(tokens, 30)?;
        let field_0x78 = read_int(tokens, 31)?;
        let field_0x7c = read_float(tokens, 32)?;
        let field_0x80 = read_int(tokens, 33)?;
        let field_0x81 = read_int(tokens, 34)?;
        let field_0x84 = read_hex(tokens, 35)?;
        let field_0x88 = read_hex(tokens, 36)?;
        let field_0x8c = read_hex(tokens, 37)?;
        let field_0x94 = read_int(tokens, 38)?;
        Ok(PropBase {
            field_0x1c,
            field_0x20,
            field_0x24,
            field_0x25,
            field_0x28,
            field_0x2c,
            field_0x30,
            field_0x34,
            field_0x38,
            field_0x3c,
            field_0x40,
            field_0x44: (field_0x44_0, field_0x44_1, field_0x44_2, field_0x44_3),
            field_0x48,
            field_0x50,
            field_0x54,
            field_0x58,
            field_0x5c,
            field_0x60,
            field_0x64,
            field_0x68,
            field_0x69,
            field_0x6a,
            field_0x6c,
            field_0x70,
            field_0x74,
            field_0x75,
            field_0x76,
            field_0x77,
            field_0x78,
            field_0x7c,
            field_0x80,
            field_0x81,
            field_0x84,
            field_0x88,
            field_0x8c,
            field_0x94,
        })
    }
}

/// The record reads only its own span: decoding ignores everything past
/// the first `PropBase::SIZE` tokens.
pub proof fn lemma_prop_base_prefix_stable(s: Seq<TkKind>, k: int)
    requires
        PropBase::SIZE <= k <= s.len(),
    ensures
        PropBase::spec_decode(s.take(k)) == PropBase::spec_decode(s),
{
    let t = s.take(k);
    assert(forall|i: int| 0 <= i < k ==> t[i] == s[i]);
    if PropBase::spec_decode(s) is Ok {
        assert(PropBase::spec_value(t) == PropBase::spec_value(s));
    }
}

/// Truncation safety: a strict prefix of a decodable record fails with
/// `UnexpectedEnd`, never anything else.
pub proof fn lemma_prop_base_truncation(s: Seq<TkKind>, k: int)
    requires
        PropBase::spec_decode(s) is Ok,
        0 <= k < PropBase::SIZE,
    ensures
        PropBase::spec_decode(s.take(k)) == Err::<PropBase, Error>(
            Error::ParseError(ParseError::UnexpectedEnd),
        ),
{
    let t = s.take(k);
    assert(forall|i: int| 0 <= i < k ==> t[i] == s[i]);
}
} // verus!
