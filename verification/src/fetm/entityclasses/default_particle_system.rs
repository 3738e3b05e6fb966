use crate::fetm::layout::{read_float, read_hex, read_int};
use crate::fetm::{Error, TkKind};
use crate::ParseError;
use vstd::prelude::*;

verus! {

/// A fixed-shape particle-system payload.
#[derive(Debug, PartialEq)]
pub struct DefaultParticleSystem {
    pub field_0x1c: usize,
    pub field_0x24: usize,
    pub field_0x28: usize,
    pub field_0x2c: usize,
    pub field_0x30: usize,
    pub field_0x34: u32,
    pub field_0x38: usize,
    pub field_0x3c: usize,
    pub field_0x40: usize,
    pub field_0x41: usize,
    pub field_0x42: usize,
    pub field_0x43: usize,
    pub field_0x44: usize,
    pub field_0x45: usize,
    pub field_0x46: usize,
    pub field_0x47: usize,
    pub field_0x48: usize,
    pub field_0x4c: usize,
    pub field_0x50: u32,
    pub field_0x54: u32,
    pub field_0x58: u32,
    pub field_0x5c: u32,
    pub field_0x60: u32,
    pub field_0x64: usize,
    pub field_0x68: u32,
    pub field_0x6c: u32,
    pub field_0x70: u32,
    pub field_0x74: u32,
    pub field_0x78: usize,
    pub field_0x7c: u32,
    pub field_0x80: u32,
    pub field_0x84: u32,
    pub field_0x88: usize,
    pub field_0x8c: u32,
    pub field_0x90: u32,
    pub field_0x94: usize,
    pub field_0x98: u32,
    pub field_0x9c: u32,
    pub field_0xa0: u32,
    pub field_0xa8: u32,
    pub field_0xac: u32,
    pub field_0xb0: u32,
    pub field_0xb4: u32,
    pub field_0xb8: u32,
    pub field_0xbc: u32,
    pub field_0xc0: u32,
    pub field_0xc4: u32,
    pub field_0xc8: usize,
    pub field_0xcc: u32,
    pub field_0xd0: u32,
    pub field_0xd4: usize,
}

impl DefaultParticleSystem {
    /// Number of tokens this record consumes.
    pub const SIZE: usize = 51;

    /// The record fits and every token it reads has the kind it expects.
    pub open spec fn spec_wf(s: Seq<TkKind>) -> bool {
        &&& s.len() >= 51
        &&& s[0].is_hex_kind()
        &&& s[1].is_int_kind()
        &&& s[2].is_int_kind()
        &&& s[3].is_int_kind()
        &&& s[4].is_int_kind()
        &&& s[5].is_float_kind()
        &&& s[6].is_int_kind()
        &&& s[7].is_int_kind()
        &&& s[8].is_int_kind()
        &&& s[9].is_int_kind()
        &&& s[10].is_int_kind()
        &&& s[11].is_int_kind()
        &&& s[12].is_int_kind()
        &&& s[13].is_int_kind()
        &&& s[14].is_int_kind()
        &&& s[15].is_int_kind()
        &&& s[16].is_int_kind()
        &&& s[17].is_int_kind()
        &&& s[18].is_float_kind()
        &&& s[19].is_float_kind()
        &&& s[20].is_float_kind()
        &&& s[21].is_float_kind()
        &&& s[22].is_float_kind()
        &&& s[23].is_int_kind()
        &&& s[24].is_float_kind()
        &&& s[25].is_float_kind()
        &&& s[26].is_float_kind()
        &&& s[27].is_float_kind()
        &&& s[28].is_int_kind()
        &&& s[29].is_float_kind()
        &&& s[30].is_float_kind()
        &&& s[31].is_float_kind()
        &&& s[32].is_int_kind()
        &&& s[33].is_float_kind()
        &&& s[34].is_float_kind()
        &&& s[35].is_int_kind()
        &&& s[36].is_float_kind()
        &&& s[37].is_float_kind()
        &&& s[38].is_float_kind()
        &&& s[39].is_float_kind()
        &&& s[40].is_float_kind()
        &&& s[41].is_float_kind()
        &&& s[42].is_float_kind()
        &&& s[43].is_float_kind()
        &&& s[44].is_float_kind()
        &&& s[45].is_float_kind()
        &&& s[46].is_float_kind()
        &&& s[47].is_int_kind()
        &&& s[48].is_float_kind()
        &&& s[49].is_float_kind()
        &&& s[50].is_int_kind()
    }

    /// Kind correctness of however much of the record is present.
    pub open spec fn spec_prefix_ok(s: Seq<TkKind>) -> bool {
        &&& (0 < s.len() ==> s[0].is_hex_kind())
        &&& (1 < s.len() ==> s[1].is_int_kind())
        &&& (2 < s.len() ==> s[2].is_int_kind())
        &&& (3 < s.len() ==> s[3].is_int_kind())
        &&& (4 < s.len() ==> s[4].is_int_kind())
        &&& (5 < s.len() ==> s[5].is_float_kind())
        &&& (6 < s.len() ==> s[6].is_int_kind())
        &&& (7 < s.len() ==> s[7].is_int_kind())
        &&& (8 < s.len() ==> s[8].is_int_kind())
        &&& (9 < s.len() ==> s[9].is_int_kind())
        &&& (10 < s.len() ==> s[10].is_int_kind())
        &&& (11 < s.len() ==> s[11].is_int_kind())
        &&& (12 < s.len() ==> s[12].is_int_kind())
        &&& (13 < s.len() ==> s[13].is_int_kind())
        &&& (14 < s.len() ==> s[14].is_int_kind())
        &&& (15 < s.len() ==> s[15].is_int_kind())
        &&& (16 < s.len() ==> s[16].is_int_kind())
        &&& (17 < s.len() ==> s[17].is_int_kind())
        &&& (18 < s.len() ==> s[18].is_float_kind())
        &&& (19 < s.len() ==> s[19].is_float_kind())
        &&& (20 < s.len() ==> s[20].is_float_kind())
        &&& (21 < s.len() ==> s[21].is_float_kind())
        &&& (22 < s.len() ==> s[22].is_float_kind())
        &&& (23 < s.len() ==> s[23].is_int_kind())
        &&& (24 < s.len() ==> s[24].is_float_kind())
        &&& (25 < s.len() ==> s[25].is_float_kind())
        &&& (26 < s.len() ==> s[26].is_float_kind())
        &&& (27 < s.len() ==> s[27].is_float_kind())
        &&& (28 < s.len() ==> s[28].is_int_kind())
        &&& (29 < s.len() ==> s[29].is_float_kind())
        &&& (30 < s.len() ==> s[30].is_float_kind())
        &&& (31 < s.len() ==> s[31].is_float_kind())
        &&& (32 < s.len() ==> s[32].is_int_kind())
        &&& (33 < s.len() ==> s[33].is_float_kind())
        &&& (34 < s.len() ==> s[34].is_float_kind())
        &&& (35 < s.len() ==> s[35].is_int_kind())
        &&& (36 < s.len() ==> s[36].is_float_kind())
        &&& (37 < s.len() ==> s[37].is_float_kind())
        &&& (38 < s.len() ==> s[38].is_float_kind())
        &&& (39 < s.len() ==> s[39].is_float_kind())
        &&& (40 < s.len() ==> s[40].is_float_kind())
        &&& (41 < s.len() ==> s[41].is_float_kind())
        &&& (42 < s.len() ==> s[42].is_float_kind())
        &&& (43 < s.len() ==> s[43].is_float_kind())
        &&& (44 < s.len() ==> s[44].is_float_kind())
        &&& (45 < s.len() ==> s[45].is_float_kind())
        &&& (46 < s.len() ==> s[46].is_float_kind())
        &&& (47 < s.len() ==> s[47].is_int_kind())
        &&& (48 < s.len() ==> s[48].is_float_kind())
        &&& (49 < s.len() ==> s[49].is_float_kind())
        &&& (50 < s.len() ==> s[50].is_int_kind())
    }

    /// The decoded record.
    pub open spec fn spec_value(s: Seq<TkKind>) -> DefaultParticleSystem
        recommends
            Self::spec_wf(s),
    {
        (DefaultParticleSystem {
            field_0x1c: s[0].spec_hex(),
            field_0x24: s[1].spec_int(),
            field_0x28: s[2].spec_int(),
            field_0x2c: s[3].spec_int(),
            field_0x30: s[4].spec_int(),
            field_0x34: s[5].spec_float_bits(),
            field_0x38: s[6].spec_int(),
            field_0x3c: s[7].spec_int(),
            field_0x40: s[8].spec_int(),
            field_0x41: s[9].spec_int(),
            field_0x42: s[10].spec_int(),
            field_0x43: s[11].spec_int(),
            field_0x44: s[12].spec_int(),
            field_0x45: s[13].spec_int(),
            field_0x46: s[14].spec_int(),
            field_0x47: s[15].spec_int(),
            field_0x48: s[16].spec_int(),
            field_0x4c: s[17].spec_int(),
            field_0x50: s[18].spec_float_bits(),
            field_0x54: s[19].spec_float_bits(),
            field_0x58: s[20].spec_float_bits(),
            field_0x5c: s[21].spec_float_bits(),
            field_0x60: s[22].spec_float_bits(),
            field_0x64: s[23].spec_int(),
            field_0x68: s[24].spec_float_bits(),
            field_0x6c: s[25].spec_float_bits(),
            field_0x70: s[26].spec_float_bits(),
            field_0x74: s[27].spec_float_bits(),
            field_0x78: s[28].spec_int(),
            field_0x7c: s[29].spec_float_bits(),
            field_0x80: s[30].spec_float_bits(),
            field_0x84: s[31].spec_float_bits(),
            field_0x88: s[32].spec_int(),
            field_0x8c: s[33].spec_float_bits(),
            field_0x90: s[34].spec_float_bits(),
            field_0x94: s[35].spec_int(),
            field_0x98: s[36].spec_float_bits(),
            field_0x9c: s[37].spec_float_bits(),
            field_0xa0: s[38].spec_float_bits(),
            field_0xa8: s[39].spec_float_bits(),
            field_0xac: s[40].spec_float_bits(),
            field_0xb0: s[41].spec_float_bits(),
            field_0xb4: s[42].spec_float_bits(),
            field_0xb8: s[43].spec_float_bits(),
            field_0xbc: s[44].spec_float_bits(),
            field_0xc0: s[45].spec_float_bits(),
            field_0xc4: s[46].spec_float_bits(),
            field_0xc8: s[47].spec_int(),
            field_0xcc: s[48].spec_float_bits(),
            field_0xd0: s[49].spec_float_bits(),
            field_0xd4: s[50].spec_int(),
        })
    }

    /// What decoding yields on any token slice: the first failing read
    /// in index order classifies the error.
    pub open spec fn spec_decode(s: Seq<TkKind>) -> Result<DefaultParticleSystem, Error> {
        if !((0 < s.len() ==> s[0].is_hex_kind()) && (1 < s.len() ==> s[1].is_int_kind()) && (2 < s.len() ==> s[2].is_int_kind()) && (3 < s.len() ==> s[3].is_int_kind()) && (4 < s.len() ==> s[4].is_int_kind()) && (5 < s.len() ==> s[5].is_float_kind()) && (6 < s.len() ==> s[6].is_int_kind()) && (7 < s.len() ==> s[7].is_int_kind()) && (8 < s.len() ==> s[8].is_int_kind()) && (9 < s.len() ==> s[9].is_int_kind()) && (10 < s.len() ==> s[10].is_int_kind()) && (11 < s.len() ==> s[11].is_int_kind()) && (12 < s.len() ==> s[12].is_int_kind()) && (13 < s.len() ==> s[13].is_int_kind()) && (14 < s.len() ==> s[14].is_int_kind()) && (15 < s.len() ==> s[15].is_int_kind()) && (16 < s.len() ==> s[16].is_int_kind()) && (17 < s.len() ==> s[17].is_int_kind()) && (18 < s.len() ==> s[18].is_float_kind()) && (19 < s.len() ==> s[19].is_float_kind()) && (20 < s.len() ==> s[20].is_float_kind()) && (21 < s.len() ==> s[21].is_float_kind()) && (22 < s.len() ==> s[22].is_float_kind()) && (23 < s.len() ==> s[23].is_int_kind()) && (24 < s.len() ==> s[24].is_float_kind()) && (25 < s.len() ==> s[25].is_float_kind()) && (26 < s.len() ==> s[26].is_float_kind()) && (27 < s.len() ==> s[27].is_float_kind()) && (28 < s.len() ==> s[28].is_int_kind()) && (29 < s.len() ==> s[29].is_float_kind()) && (30 < s.len() ==> s[30].is_float_kind()) && (31 < s.len() ==> s[31].is_float_kind()) && (32 < s.len() ==> s[32].is_int_kind()) && (33 < s.len() ==> s[33].is_float_kind()) && (34 < s.len() ==> s[34].is_float_kind()) && (35 < s.len() ==> s[35].is_int_kind()) && (36 < s.len() ==> s[36].is_float_kind()) && (37 < s.len() ==> s[37].is_float_kind()) && (38 < s.len() ==> s[38].is_float_kind()) && (39 < s.len() ==> s[39].is_float_kind()) && (40 < s.len() ==> s[40].is_float_kind()) && (41 < s.len() ==> s[41].is_float_kind()) && (42 < s.len() ==> s[42].is_float_kind()) && (43 < s.len() ==> s[43].is_float_kind()) && (44 < s.len() ==> s[44].is_float_kind()) && (45 < s.len() ==> s[45].is_float_kind()) && (46 < s.len() ==> s[46].is_float_kind()) && (47 < s.len() ==> s[47].is_int_kind()) && (48 < s.len() ==> s[48].is_float_kind()) && (49 < s.len() ==> s[49].is_float_kind()) && (50 < s.len() ==> s[50].is_int_kind())) {
            Err(Error::InvalidTokenKind)
        } else if !(s.len() >= 51 && s[0].is_hex_kind() && s[1].is_int_kind() && s[2].is_int_kind() && s[3].is_int_kind() && s[4].is_int_kind() && s[5].is_float_kind() && s[6].is_int_kind() && s[7].is_int_kind() && s[8].is_int_kind() && s[9].is_int_kind() && s[10].is_int_kind() && s[11].is_int_kind() && s[12].is_int_kind() && s[13].is_int_kind() && s[14].is_int_kind() && s[15].is_int_kind() && s[16].is_int_kind() && s[17].is_int_kind() && s[18].is_float_kind() && s[19].is_float_kind() && s[20].is_float_kind() && s[21].is_float_kind() && s[22].is_float_kind() && s[23].is_int_kind() && s[24].is_float_kind() && s[25].is_float_kind() && s[26].is_float_kind() && s[27].is_float_kind() && s[28].is_int_kind() && s[29].is_float_kind() && s[30].is_float_kind() && s[31].is_float_kind() && s[32].is_int_kind() && s[33].is_float_kind() && s[34].is_float_kind() && s[35].is_int_kind() && s[36].is_float_kind() && s[37].is_float_kind() && s[38].is_float_kind() && s[39].is_float_kind() && s[40].is_float_kind() && s[41].is_float_kind() && s[42].is_float_kind() && s[43].is_float_kind() && s[44].is_float_kind() && s[45].is_float_kind() && s[46].is_float_kind() && s[47].is_int_kind() && s[48].is_float_kind() && s[49].is_float_kind() && s[50].is_int_kind()) {
            Err(Error::ParseError(ParseError::UnexpectedEnd))
        } else {
            Ok(Self::spec_value(s))
        }
    }

    /// Decodes the record from the front of `tokens`, reading each field
    /// at its fixed position; exactly `spec_decode` of the tokens.
    pub fn from_tokens(tokens: &[TkKind]) -> (r: Result<Self, Error>)
        ensures
            r == Self::spec_decode(tokens@),
    {
        let field_0x1c = read_hex(tokens, 0)?;
        let field_0x24 = read_int(tokens, 1)?;
        let field_0x28 = read_int(tokens, 2)?;
        let field_0x2c = read_int(tokens, 3)?;
        let field_0x30 = read_int(tokens, 4)?;
        let field_0x34 = read_float(tokens, 5)?;
        let field_0x38 = read_int(tokens, 6)?;
        let field_0x3c = read_int(tokens, 7)?;
        let field_0x40 = read_int(tokens, 8)?;
        let field_0x41 = read_int(tokens, 9)?;
        let field_0x42 = read_int(tokens, 10)?;
        let field_0x43 = read_int(tokens, 11)?;
        let field_0x44 = read_int(tokens, 12)?;
        let field_0x45 = read_int(tokens, 13)?;
        let field_0x46 = read_int(tokens, 14)?;
        let field_0x47 = read_int(tokens, 15)?;
        let field_0x48 = read_int(tokens, 16)?;
        let field_0x4c = read_int(tokens, 17)?;
        let field_0x50 = read_float(tokens, 18)?;
        let field_0x54 = read_float(tokens, 19)?;
        let field_0x58 = read_float(tokens, 20)?;
        let field_0x5c = read_float(tokens, 21)?;
        let field_0x60 = read_float(tokens, 22)?;
        let field_0x64 = read_int(tokens, 23)?;
        let field_0x68 = read_float(tokens, 24)?;
        let field_0x6c = read_float(tokens, 25)?;
        let field_0x70 = read_float(tokens, 26)?;
        let field_0x74 = read_float(tokens, 27)?;
        let field_0x78 = read_int(tokens, 28)?;
        let field_0x7c = read_float(tokens, 29)?;
        let field_0x80 = read_float(tokens, 30)?;
        let field_0x84 = read_float(tokens, 31)?;
        let field_0x88 = read_int(tokens, 32)?;
        let field_0x8c = read_float(tokens, 33)?;
        let field_0x90 = read_float(tokens, 34)?;
        let field_0x94 = read_int(tokens, 35)?;
        let field_0x98 = read_float(tokens, 36)?;
        let field_0x9c = read_float(tokens, 37)?;
        let field_0xa0 = read_float(tokens, 38)?;
        let field_0xa8 = read_float(tokens, 39)?;
        let field_0xac = read_float(tokens, 40)?;
        let field_0xb0 = read_float(tokens, 41)?;
        let field_0xb4 = read_float(tokens, 42)?;
        let field_0xb8 = read_float(tokens, 43)?;
        let field_0xbc = read_float(tokens, 44)?;
        let field_0xc0 = read_float(tokens, 45)?;
        let field_0xc4 = read_float(tokens, 46)?;
        let field_0xc8 = read_int(tokens, 47)?;
        let field_0xcc = read_float(tokens, 48)?;
        let field_0xd0 = read_float(tokens, 49)?;
        let field_0xd4 = read_int(tokens, 50)?;
        Ok(DefaultParticleSystem {
            field_0x1c,
            field_0x24,
            field_0x28,
            field_0x2c,
            field_0x30,
            field_0x34,
            field_0x38,
            field_0x3c,
            field_0x40,
            field_0x41,
            field_0x42,
            field_0x43,
            field_0x44,
            field_0x45,
            field_0x46,
            field_0x47,
            field_0x48,
            field_0x4c,
            field_0x50,
            field_0x54,
            field_0x58,
            field_0x5c,
            field_0x60,
            field_0x64,
            field_0x68,
            field_0x6c,
            field_0x70,
            field_0x74,
            field_0x78,
            field_0x7c,
            field_0x80,
            field_0x84,
            field_0x88,
            field_0x8c,
            field_0x90,
            field_0x94,
            field_0x98,
            field_0x9c,
            field_0xa0,
            field_0xa8,
            field_0xac,
            field_0xb0,
            field_0xb4,
            field_0xb8,
            field_0xbc,
            field_0xc0,
            field_0xc4,
            field_0xc8,
            field_0xcc,
            field_0xd0,
            field_0xd4,
        })
    }
}

/// The record reads only its own span: decoding ignores everything past
/// the first `DefaultParticleSystem::SIZE` tokens.
pub proof fn lemma_default_particle_system_prefix_stable(s: Seq<TkKind>, k: int)
    requires
        DefaultParticleSystem::SIZE <= k <= s.len(),
    ensures
        DefaultParticleSystem::spec_decode(s.take(k)) == DefaultParticleSystem::spec_decode(s),
{
    let t = s.take(k);
    assert(forall|i: int| 0 <= i < k ==> t[i] == s[i]);
    if DefaultParticleSystem::spec_decode(s) is Ok {
        assert(DefaultParticleSystem::spec_value(t) == DefaultParticleSystem::spec_value(s));
    }
}

/// Truncation safety: a strict prefix of a decodable record fails with
/// `UnexpectedEnd`, never anything else.
pub proof fn lemma_default_particle_system_truncation(s: Seq<TkKind>, k: int)
    requires
        DefaultParticleSystem::spec_decode(s) is Ok,
        0 <= k < DefaultParticleSystem::SIZE,
    ensures
        DefaultParticleSystem::spec_decode(s.take(k)) == Err::<DefaultParticleSystem, Error>(
            Error::ParseError(ParseError::UnexpectedEnd),
        ),
{
    let t = s.take(k);
    assert(forall|i: int| 0 <= i < k ==> t[i] == s[i]);
}
} // verus!
