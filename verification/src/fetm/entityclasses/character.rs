use crate::fetm::layout::{read_float, read_hex, read_int};
use crate::fetm::entityclasses::game_object::{lemma_game_object_prefix_stable, lemma_game_object_truncation, GameObject};
use crate::fetm::{Error, TkKind};
use crate::ParseError;
use vstd::prelude::*;

verus! {

/// A `GameObject` followed by character movement and animation fields.
#[derive(Debug, PartialEq)]
pub struct Character {
    pub game_object: GameObject,
    pub field_0xb8: usize,
    pub field_0xbc: usize,
    pub field_0xc4: usize,
    pub field_0xc5: usize,
    pub field_0xc6: usize,
    pub field_0xc7: usize,
    pub field_0xc8: usize,
    pub field_0xc9: usize,
    pub field_0xca: usize,
    pub field_0xcb: usize,
    pub field_0xcc: usize,
    pub field_0xcd: usize,
    pub field_0xce: usize,
    pub field_0xcf: usize,
    pub field_0xd0: usize,
    pub field_0xd1: usize,
    pub field_0xd2: usize,
    pub field_0xd3: usize,
    pub field_0xd4: usize,
    pub field_0xd5: usize,
    pub field_0xd8: u32,
    pub field_0xdc: u32,
    pub field_0xe0: u32,
    pub field_0xe4: u32,
    pub field_0xe8: usize,
    pub field_0xec: usize,
    pub field_0xf0: u32,
    pub field_0xf4: u32,
    pub field_0xf8: usize,
    pub field_0xfc: usize,
}

impl Character {
    /// Number of tokens this record consumes.
    pub const SIZE: usize = 76;

    /// The record fits and every token it reads has the kind it expects.
    pub open spec fn spec_wf(s: Seq<TkKind>) -> bool {
        &&& GameObject::spec_wf(s)
        &&& s.len() >= 76
        &&& s[46].is_int_kind()
        &&& s[47].is_hex_kind()
        &&& s[48].is_int_kind()
        &&& s[49].is_int_kind()
        &&& s[50].is_int_kind()
        &&& s[51].is_int_kind()
        &&& s[52].is_int_kind()
        &&& s[53].is_int_kind()
        &&& s[54].is_int_kind()
        &&& s[55].is_int_kind()
        &&& s[56].is_int_kind()
        &&& s[57].is_int_kind()
        &&& s[58].is_int_kind()
        &&& s[59].is_int_kind()
        &&& s[60].is_int_kind()
        &&& s[61].is_int_kind()
        &&& s[62].is_int_kind()
        &&& s[63].is_int_kind()
        &&& s[64].is_int_kind()
        &&& s[65].is_int_kind()
        &&& s[66].is_float_kind()
        &&& s[67].is_float_kind()
        &&& s[68].is_float_kind()
        &&& s[69].is_float_kind()
        &&& s[70].is_int_kind()
        &&& s[71].is_int_kind()
        &&& s[72].is_float_kind()
        &&& s[73].is_float_kind()
        &&& s[74].is_int_kind()
        &&& s[75].is_hex_kind()
    }

    /// Kind correctness of however much of the record is present.
    pub open spec fn spec_prefix_ok(s: Seq<TkKind>) -> bool {
        &&& GameObject::spec_prefix_ok(s)
        &&& (46 < s.len() ==> s[46].is_int_kind())
        &&& (47 < s.len() ==> s[47].is_hex_kind())
        &&& (48 < s.len() ==> s[48].is_int_kind())
        &&& (49 < s.len() ==> s[49].is_int_kind())
        &&& (50 < s.len() ==> s[50].is_int_kind())
        &&& (51 < s.len() ==> s[51].is_int_kind())
        &&& (52 < s.len() ==> s[52].is_int_kind())
        &&& (53 < s.len() ==> s[53].is_int_kind())
        &&& (54 < s.len() ==> s[54].is_int_kind())
        &&& (55 < s.len() ==> s[55].is_int_kind())
        &&& (56 < s.len() ==> s[56].is_int_kind())
        &&& (57 < s.len() ==> s[57].is_int_kind())
        &&& (58 < s.len() ==> s[58].is_int_kind())
        &&& (59 < s.len() ==> s[59].is_int_kind())
        &&& (60 < s.len() ==> s[60].is_int_kind())
        &&& (61 < s.len() ==> s[61].is_int_kind())
        &&& (62 < s.len() ==> s[62].is_int_kind())
        &&& (63 < s.len() ==> s[63].is_int_kind())
        &&& (64 < s.len() ==> s[64].is_int_kind())
        &&& (65 < s.len() ==> s[65].is_int_kind())
        &&& (66 < s.len() ==> s[66].is_float_kind())
        &&& (67 < s.len() ==> s[67].is_float_kind())
        &&& (68 < s.len() ==> s[68].is_float_kind())
        &&& (69 < s.len() ==> s[69].is_float_kind())
        &&& (70 < s.len() ==> s[70].is_int_kind())
        &&& (71 < s.len() ==> s[71].is_int_kind())
        &&& (72 < s.len() ==> s[72].is_float_kind())
        &&& (73 < s.len() ==> s[73].is_float_kind())
        &&& (74 < s.len() ==> s[74].is_int_kind())
        &&& (75 < s.len() ==> s[75].is_hex_kind())
    }

    /// The decoded record.
    pub open spec fn spec_value(s: Seq<TkKind>) -> Character
        recommends
            Self::spec_wf(s),
    {
        (Character {
            game_object: GameObject::spec_value(s),
            field_0xb8: s[46].spec_int(),
            field_0xbc: s[47].spec_hex(),
            field_0xc4: s[48].spec_int(),
            field_0xc5: s[49].spec_int(),
            field_0xc6: s[50].spec_int(),
            field_0xc7: s[51].spec_int(),
            field_0xc8: s[52].spec_int(),
            field_0xc9: s[53].spec_int(),
            field_0xca: s[54].spec_int(),
            field_0xcb: s[55].spec_int(),
            field_0xcc: s[56].spec_int(),
            field_0xcd: s[57].spec_int(),
            field_0xce: s[58].spec_int(),
            field_0xcf: s[59].spec_int(),
            field_0xd0: s[60].spec_int(),
            field_0xd1: s[61].spec_int(),
            field_0xd2: s[62].spec_int(),
            field_0xd3: s[63].spec_int(),
            field_0xd4: s[64].spec_int(),
            field_0xd5: s[65].spec_int(),
            field_0xd8: s[66].spec_float_bits(),
            field_0xdc: s[67].spec_float_bits(),
            field_0xe0: s[68].spec_float_bits(),
            field_0xe4: s[69].spec_float_bits(),
            field_0xe8: s[70].spec_int(),
            field_0xec: s[71].spec_int(),
            field_0xf0: s[72].spec_float_bits(),
            field_0xf4: s[73].spec_float_bits(),
            field_0xf8: s[74].spec_int(),
            field_0xfc: s[75].spec_hex(),
        })
    }

    /// What decoding yields on any token slice: the first failing read
    /// in index order classifies the error.
    pub open spec fn spec_decode(s: Seq<TkKind>) -> Result<Character, Error> {
        match GameObject::spec_decode(s) {
            Err(e) => Err(e),
            Ok(_) => Self::spec_decode_tail(s),
        }
    }

    /// Decode of the fields this record adds past its base.
    pub open spec fn spec_decode_tail(s: Seq<TkKind>) -> Result<Character, Error> {
        if !((46 < s.len() ==> s[46].is_int_kind()) && (47 < s.len() ==> s[47].is_hex_kind()) && (48 < s.len() ==> s[48].is_int_kind()) && (49 < s.len() ==> s[49].is_int_kind()) && (50 < s.len() ==> s[50].is_int_kind()) && (51 < s.len() ==> s[51].is_int_kind()) && (52 < s.len() ==> s[52].is_int_kind()) && (53 < s.len() ==> s[53].is_int_kind()) && (54 < s.len() ==> s[54].is_int_kind()) && (55 < s.len() ==> s[55].is_int_kind()) && (56 < s.len() ==> s[56].is_int_kind()) && (57 < s.len() ==> s[57].is_int_kind()) && (58 < s.len() ==> s[58].is_int_kind()) && (59 < s.len() ==> s[59].is_int_kind()) && (60 < s.len() ==> s[60].is_int_kind()) && (61 < s.len() ==> s[61].is_int_kind()) && (62 < s.len() ==> s[62].is_int_kind()) && (63 < s.len() ==> s[63].is_int_kind()) && (64 < s.len() ==> s[64].is_int_kind()) && (65 < s.len() ==> s[65].is_int_kind()) && (66 < s.len() ==> s[66].is_float_kind()) && (67 < s.len() ==> s[67].is_float_kind()) && (68 < s.len() ==> s[68].is_float_kind()) && (69 < s.len() ==> s[69].is_float_kind()) && (70 < s.len() ==> s[70].is_int_kind()) && (71 < s.len() ==> s[71].is_int_kind()) && (72 < s.len() ==> s[72].is_float_kind()) && (73 < s.len() ==> s[73].is_float_kind()) && (74 < s.len() ==> s[74].is_int_kind()) && (75 < s.len() ==> s[75].is_hex_kind())) {
            Err(Error::InvalidTokenKind)
        } else if !(s.len() >= 76 && s[46].is_int_kind() && s[47].is_hex_kind() && s[48].is_int_kind() && s[49].is_int_kind() && s[50].is_int_kind() && s[51].is_int_kind() && s[52].is_int_kind() && s[53].is_int_kind() && s[54].is_int_kind() && s[55].is_int_kind() && s[56].is_int_kind() && s[57].is_int_kind() && s[58].is_int_kind() && s[59].is_int_kind() && s[60].is_int_kind() && s[61].is_int_kind() && s[62].is_int_kind() && s[63].is_int_kind() && s[64].is_int_kind() && s[65].is_int_kind() && s[66].is_float_kind() && s[67].is_float_kind() && s[68].is_float_kind() && s[69].is_float_kind() && s[70].is_int_kind() && s[71].is_int_kind() && s[72].is_float_kind() && s[73].is_float_kind() && s[74].is_int_kind() && s[75].is_hex_kind()) {
            Err(Error::ParseError(ParseError::UnexpectedEnd))
        } else {
            Ok(Self::spec_value(s))
        }
    }

    /// Decodes the record from the front of `tokens`, reading each field
    /// at its fixed position; exactly `spec_decode` of the tokens.
    pub fn from_tokens(tokens: &[TkKind]) -> (r: Result<Self, Error>)
        ensures
            r == Self::spec_decode(tokens@),
    {
        let game_object = GameObject::from_tokens(tokens)?;
        let field_0xb8 = read_int(tokens, 46)?;
        let field_0xbc = read_hex(tokens, 47)?;
        let field_0xc4 = read_int(tokens, 48)?;
        let field_0xc5 = read_int(tokens, 49)?;
        let field_0xc6 = read_int(tokens, 50)?;
        let field_0xc7 = read_int(tokens, 51)?;
        let field_0xc8 = read_int(tokens, 52)?;
        let field_0xc9 = read_int(tokens, 53)?;
        let field_0xca = read_int(tokens, 54)?;
        let field_0xcb = read_int(tokens, 55)?;
        let field_0xcc = read_int(tokens, 56)?;
        let field_0xcd = read_int(tokens, 57)?;
        let field_0xce = read_int(tokens, 58)?;
        let field_0xcf = read_int(tokens, 59)?;
        let field_0xd0 = read_int(tokens, 60)?;
        let field_0xd1 = read_int(tokens, 61)?;
        let field_0xd2 = read_int(tokens, 62)?;
        let field_0xd3 = read_int(tokens, 63)?;
        let field_0xd4 = read_int(tokens, 64)?;
        let field_0xd5 = read_int(tokens, 65)?;
        let field_0xd8 = read_float(tokens, 66)?;
        let field_0xdc = read_float(tokens, 67)?;
        let field_0xe0 = read_float(tokens, 68)?;
        let field_0xe4 = read_float(tokens, 69)?;
        let field_0xe8 = read_int(tokens, 70)?;
        let field_0xec = read_int(tokens, 71)?;
        let field_0xf0 = read_float(tokens, 72)?;
        let field_0xf4 = read_float(tokens, 73)?;
        let field_0xf8 = read_int(tokens, 74)?;
        let field_0xfc = read_hex(tokens, 75)?;
        Ok(Character {
            game_object,
            field_0xb8,
            field_0xbc,
            field_0xc4,
            field_0xc5,
            field_0xc6,
            field_0xc7,
            field_0xc8,
            field_0xc9,
            field_0xca,
            field_0xcb,
            field_0xcc,
            field_0xcd,
            field_0xce,
            field_0xcf,
            field_0xd0,
            field_0xd1,
            field_0xd2,
            field_0xd3,
            field_0xd4,
            field_0xd5,
            field_0xd8,
            field_0xdc,
            field_0xe0,
            field_0xe4,
            field_0xe8,
            field_0xec,
            field_0xf0,
            field_0xf4,
            field_0xf8,
            field_0xfc,
        })
    }
}

/// The record reads only its own span: decoding ignores everything past
/// the first `Character::SIZE` tokens.
pub proof fn lemma_character_prefix_stable(s: Seq<TkKind>, k: int)
    requires
        Character::SIZE <= k <= s.len(),
    ensures
        Character::spec_decode(s.take(k)) == Character::spec_decode(s),
{
    let t = s.take(k);
    assert(forall|i: int| 0 <= i < k ==> t[i] == s[i]);
    lemma_game_object_prefix_stable(s, k);
    if GameObject::spec_decode(s) is Ok {
        assert(Character::spec_decode_tail(t) == Character::spec_decode_tail(s)) by {
            if Character::spec_decode_tail(s) is Ok {
                assert(Character::spec_value(t) == Character::spec_value(s));
            }
        }
    }
}

/// Truncation safety: a strict prefix of a decodable record fails with
/// `UnexpectedEnd`, never anything else.
pub proof fn lemma_character_truncation(s: Seq<TkKind>, k: int)
    requires
        Character::spec_decode(s) is Ok,
        0 <= k < Character::SIZE,
    ensures
        Character::spec_decode(s.take(k)) == Err::<Character, Error>(
            Error::ParseError(ParseError::UnexpectedEnd),
        ),
{
    let t = s.take(k);
    assert(forall|i: int| 0 <= i < k ==> t[i] == s[i]);
    if k < GameObject::SIZE {
        lemma_game_object_truncation(s, k);
    } else {
        lemma_game_object_prefix_stable(s, k);
    }
}
} // verus!
