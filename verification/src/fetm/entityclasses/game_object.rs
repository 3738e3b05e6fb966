use crate::fetm::layout::{read_float, read_hex, read_int};
use crate::fetm::entityclasses::prop_base::{lemma_prop_base_prefix_stable, lemma_prop_base_truncation, PropBase};
use crate::fetm::{Error, TkKind};
use crate::ParseError;
use vstd::prelude::*;

verus! {

/// A `PropBase` followed by game-object tuning fields.
#[derive(Debug, PartialEq)]
pub struct GameObject {
    pub base: PropBase,
    pub field_0x98: usize,
    pub field_0x9c: u32,
    pub field_0xa0: u32,
    pub field_0xa4: usize,
    pub field_0xa8: usize,
    pub field_0xb0: usize,
    pub field_0xb4: usize,
}

impl GameObject {
    /// Number of tokens this record consumes.
    pub const SIZE: usize = 46;

    /// The record fits and every token it reads has the kind it expects.
    pub open spec fn spec_wf(s: Seq<TkKind>) -> bool {
        &&& PropBase::spec_wf(s)
        &&& s.len() >= 46
        &&& s[39].is_int_kind()
        &&& s[40].is_float_kind()
        &&& s[41].is_float_kind()
        &&& s[42].is_int_kind()
        &&& s[43].is_hex_kind()
        &&& s[44].is_int_kind()
        &&& s[45].is_int_kind()
    }

    /// Kind correctness of however much of the record is present.
    pub open spec fn spec_prefix_ok(s: Seq<TkKind>) -> bool {
        &&& PropBase::spec_prefix_ok(s)
        &&& (39 < s.len() ==> s[39].is_int_kind())
        &&& (40 < s.len() ==> s[40].is_float_kind())
        &&& (41 < s.len() ==> s[41].is_float_kind())
        &&& (42 < s.len() ==> s[42].is_int_kind())
        &&& (43 < s.len() ==> s[43].is_hex_kind())
        &&& (44 < s.len() ==> s[44].is_int_kind())
        &&& (45 < s.len() ==> s[45].is_int_kind())
    }

    /// The decoded record.
    pub open spec fn spec_value(s: Seq<TkKind>) -> GameObject
        recommends
            Self::spec_wf(s),
    {
        (GameObject {
            base: PropBase::spec_value(s),
            field_0x98: s[39].spec_int(),
            field_0x9c: s[40].spec_float_bits(),
            field_0xa0: s[41].spec_float_bits(),
            field_0xa4: s[42].spec_int(),
            field_0xa8: s[43].spec_hex(),
            field_0xb0: s[44].spec_int(),
            field_0xb4: s[45].spec_int(),
        })
    }

    /// What decoding yields on any token slice: the first failing read
    /// in index order classifies the error.
    pub open spec fn spec_decode(s: Seq<TkKind>) -> Result<GameObject, Error> {
        match PropBase::spec_decode(s) {
            Err(e) => Err(e),
            Ok(_) => Self::spec_decode_tail(s),
        }
    }

    /// Decode of the fields this record adds past its base.
    pub open spec fn spec_decode_tail(s: Seq<TkKind>) -> Result<GameObject, Error> {
        if !((39 < s.len() ==> s[39].is_int_kind()) && (40 < s.len() ==> s[40].is_float_kind()) && (41 < s.len() ==> s[41].is_float_kind()) && (42 < s.len() ==> s[42].is_int_kind()) && (43 < s.len() ==> s[43].is_hex_kind()) && (44 < s.len() ==> s[44].is_int_kind()) && (45 < s.len() ==> s[45].is_int_kind())) {
            Err(Error::InvalidTokenKind)
        } else if !(s.len() >= 46 && s[39].is_int_kind() && s[40].is_float_kind() && s[41].is_float_kind() && s[42].is_int_kind() && s[43].is_hex_kind() && s[44].is_int_kind() && s[45].is_int_kind()) {
            Err(Error::ParseError(ParseError::UnexpectedEnd))
        } else {
            Ok(Self::spec_value(s))
        }
    }

    /// Decodes the record from the front of `tokens`, reading each field
    /// at its fixed position; exactly `spec_decode` of the tokens.
    pub fn from_tokens(tokens: &[TkKind]) -> (r: Result<Self, Error>)
        ensures
            r == Self::spec_decode(tokens@),
    {
        let base = PropBase::from_tokens(tokens)?;
        let field_0x98 = read_int(tokens, 39)?;
        let field_0x9c = read_float(tokens, 40)?;
        let field_0xa0 = read_float(tokens, 41)?;
        let field_0xa4 = read_int(tokens, 42)?;
        let field_0xa8 = read_hex(tokens, 43)?;
        let field_0xb0 = read_int(tokens, 44)?;
        let field_0xb4 = read_int(tokens, 45)?;
        Ok(GameObject {
            base,
            field_0x98,
            field_0x9c,
            field_0xa0,
            field_0xa4,
            field_0xa8,
            field_0xb0,
            field_0xb4,
        })
    }
}

/// The record reads only its own span: decoding ignores everything past
/// the first `GameObject::SIZE` tokens.
pub proof fn lemma_game_object_prefix_stable(s: Seq<TkKind>, k: int)
    requires
        GameObject::SIZE <= k <= s.len(),
    ensures
        GameObject::spec_decode(s.take(k)) == GameObject::spec_decode(s),
{
    let t = s.take(k);
    assert(forall|i: int| 0 <= i < k ==> t[i] == s[i]);
    lemma_prop_base_prefix_stable(s, k);
    if PropBase::spec_decode(s) is Ok {
        assert(GameObject::spec_decode_tail(t) == GameObject::spec_decode_tail(s)) by {
            if GameObject::spec_decode_tail(s) is Ok {
                assert(GameObject::spec_value(t) == GameObject::spec_value(s));
            }
        }
    }
}

/// Truncation safety: a strict prefix of a decodable record fails with
/// `UnexpectedEnd`, never anything else.
pub proof fn lemma_game_object_truncation(s: Seq<TkKind>, k: int)
    requires
        GameObject::spec_decode(s) is Ok,
        0 <= k < GameObject::SIZE,
    ensures
        GameObject::spec_decode(s.take(k)) == Err::<GameObject, Error>(
            Error::ParseError(ParseError::UnexpectedEnd),
        ),
{
    let t = s.take(k);
    assert(forall|i: int| 0 <= i < k ==> t[i] == s[i]);
    if k < PropBase::SIZE {
        lemma_prop_base_truncation(s, k);
    } else {
        lemma_prop_base_prefix_stable(s, k);
    }
}
} // verus!
