//! The decal-system node payload.
use crate::fetm::layout::{read_float, read_hex, read_int};
use crate::fetm::nodes::advanced_node::AdvancedNode;
use crate::fetm::{Error, TkKind};
use crate::ParseError;
use vstd::prelude::*;

verus! {

/// The decal-system node payload: an `AdvancedNode` followed by its decal
/// budget and fade tuning fields.
#[derive(Debug, PartialEq)]
pub struct DecalSystem<'a> {
    pub base: AdvancedNode<'a>,
    pub flag_0: usize,
    pub field_0x134: usize,
    pub field_0x138: usize,
    pub field_0x13c: usize,
    pub field_0x15c: usize,
    pub field_0x158: usize,
    pub field_0x150: usize,
    pub field_0x151: usize,
    pub field_0x164: u32,
    pub field_0x140: usize,
    pub field_0x170: usize,
    pub field_0x174: u32,
    pub field_0x178: u32,
    pub flag_1: usize,
}

impl<'a> DecalSystem<'a> {
    /// Tokens this record consumes past its base record.
    pub const EXTRA: usize = 14;

    /// Number of tokens consumed: the base record plus the fixed tail.
    pub open spec fn spec_size(self) -> int {
        self.base.spec_size() + 14
    }

    /// Number of tokens consumed, as `spec_size`.
    pub fn size(&self) -> (r: usize)
        requires
            self.spec_size() <= usize::MAX,
        ensures
            r == self.spec_size(),
    {
        self.base.size() + 14
    }

    /// Kind correctness of however much of the tail is present
    /// (`t` starts right after the base record).
    pub open spec fn spec_tail_prefix_ok(t: Seq<TkKind<'a>>) -> bool {
        &&& (0 < t.len() ==> t[0].is_int_kind())
        &&& (1 < t.len() ==> t[1].is_int_kind())
        &&& (2 < t.len() ==> t[2].is_int_kind())
        &&& (3 < t.len() ==> t[3].is_int_kind())
        &&& (4 < t.len() ==> t[4].is_hex_kind())
        &&& (5 < t.len() ==> t[5].is_int_kind())
        &&& (6 < t.len() ==> t[6].is_int_kind())
        &&& (7 < t.len() ==> t[7].is_int_kind())
        &&& (8 < t.len() ==> t[8].is_float_kind())
        &&& (9 < t.len() ==> t[9].is_int_kind())
        &&& (10 < t.len() ==> t[10].is_int_kind())
        &&& (11 < t.len() ==> t[11].is_float_kind())
        &&& (12 < t.len() ==> t[12].is_float_kind())
        &&& (13 < t.len() ==> t[13].is_int_kind())
    }

    /// The tail fits and every token it reads has the kind it expects.
    pub open spec fn spec_tail_wf(t: Seq<TkKind<'a>>) -> bool {
        &&& t.len() >= 14
        &&& t[0].is_int_kind()
        &&& t[1].is_int_kind()
        &&& t[2].is_int_kind()
        &&& t[3].is_int_kind()
        &&& t[4].is_hex_kind()
        &&& t[5].is_int_kind()
        &&& t[6].is_int_kind()
        &&& t[7].is_int_kind()
        &&& t[8].is_float_kind()
        &&& t[9].is_int_kind()
        &&& t[10].is_int_kind()
        &&& t[11].is_float_kind()
        &&& t[12].is_float_kind()
        &&& t[13].is_int_kind()
    }

    /// The decoded record, given its base and its tail.
    pub open spec fn spec_value(b: AdvancedNode<'a>, t: Seq<TkKind<'a>>) -> DecalSystem<'a>
        recommends
            Self::spec_tail_wf(t),
    {
        (DecalSystem {
            base: b,
            flag_0: t[0].spec_int(),
            field_0x134: t[1].spec_int(),
            field_0x138: t[2].spec_int(),
            field_0x13c: t[3].spec_int(),
            field_0x15c: t[4].spec_hex(),
            field_0x158: t[5].spec_int(),
            field_0x150: t[6].spec_int(),
            field_0x151: t[7].spec_int(),
            field_0x164: t[8].spec_float_bits(),
            field_0x140: t[9].spec_int(),
            field_0x170: t[10].spec_int(),
            field_0x174: t[11].spec_float_bits(),
            field_0x178: t[12].spec_float_bits(),
            flag_1: t[13].spec_int(),
        })
    }

    /// Decode of the fields this record adds past its base.
    pub open spec fn spec_decode_tail(b: AdvancedNode<'a>, t: Seq<TkKind<'a>>) -> Result<
        DecalSystem<'a>,
        Error,
    > {
        if !Self::spec_tail_prefix_ok(t) {
            Err(Error::InvalidTokenKind)
        } else if !Self::spec_tail_wf(t) {
            Err(Error::ParseError(ParseError::UnexpectedEnd))
        } else {
            Ok(Self::spec_value(b, t))
        }
    }

    /// What decoding yields: the base record, then the fixed tail.
    pub open spec fn spec_decode(s: Seq<TkKind<'a>>) -> Result<DecalSystem<'a>, Error> {
        match AdvancedNode::spec_decode(s) {
            Err(e) => Err(e),
            Ok(b) => Self::spec_decode_tail(b, s.skip(b.spec_size())),
        }
    }

    /// Decodes the record from the front of `tokens`, exactly as
    /// `spec_decode` describes it.
    pub fn from_tokens(tokens: &[TkKind<'a>]) -> (r: Result<Self, Error>)
        ensures
            r == Self::spec_decode(tokens@),
            r matches Ok(v) ==> v.spec_size() <= tokens@.len(),
    {
        let n: usize = tokens.len();
        let base = AdvancedNode::from_tokens(tokens)?;
        let blen = base.size();
        let t = vstd::slice::slice_subrange(tokens, blen, n);
        proof {
            assert(t@ =~= tokens@.skip(base.spec_size()));
        }
        let flag_0 = read_int(t, 0)?;
        let field_0x134 = read_int(t, 1)?;
        let field_0x138 = read_int(t, 2)?;
        let field_0x13c = read_int(t, 3)?;
        let field_0x15c = read_hex(t, 4)?;
        let field_0x158 = read_int(t, 5)?;
        let field_0x150 = read_int(t, 6)?;
        let field_0x151 = read_int(t, 7)?;
        let field_0x164 = read_float(t, 8)?;
        let field_0x140 = read_int(t, 9)?;
        let field_0x170 = read_int(t, 10)?;
        let field_0x174 = read_float(t, 11)?;
        let field_0x178 = read_float(t, 12)?;
        let flag_1 = read_int(t, 13)?;
        Ok(DecalSystem {
            base,
            flag_0,
            field_0x134,
            field_0x138,
            field_0x13c,
            field_0x15c,
            field_0x158,
            field_0x150,
            field_0x151,
            field_0x164,
            field_0x140,
            field_0x170,
            field_0x174,
            field_0x178,
            flag_1,
        })
    }
}
} // verus!
