//! The effect node payload.
use crate::fetm::layout::{read_float, read_hex, read_int};
use crate::fetm::nodes::advanced_node::AdvancedNode;
use crate::fetm::{Error, TkKind};
use crate::ParseError;
use vstd::prelude::*;

verus! {

/// The effect node payload: an `AdvancedNode` followed by four flags and
/// three floats.
#[derive(Debug, PartialEq)]
pub struct Effect<'a> {
    pub advanced_node: AdvancedNode<'a>,
    pub flag_0: usize,
    pub flag_1: usize,
    pub flag_2: usize,
    pub flag_3: usize,
    pub field_0xdc: u32,
    pub field_0xe4: u32,
    pub field_0xe8: u32,
}

impl<'a> Effect<'a> {
    /// Tokens this record consumes past its base record.
    pub const EXTRA: usize = 7;

    /// Number of tokens consumed: the base record plus the fixed tail.
    pub open spec fn spec_size(self) -> int {
        self.advanced_node.spec_size() + 7
    }

    /// Number of tokens consumed, as `spec_size`.
    pub fn size(&self) -> (r: usize)
        requires
            self.spec_size() <= usize::MAX,
        ensures
            r == self.spec_size(),
    {
        self.advanced_node.size() + 7
    }

    /// Kind correctness of however much of the tail is present
    /// (`t` starts right after the base record).
    pub open spec fn spec_tail_prefix_ok(t: Seq<TkKind<'a>>) -> bool {
        &&& (0 < t.len() ==> t[0].is_int_kind())
        &&& (1 < t.len() ==> t[1].is_int_kind())
        &&& (2 < t.len() ==> t[2].is_int_kind())
        &&& (3 < t.len() ==> t[3].is_int_kind())
        &&& (4 < t.len() ==> t[4].is_float_kind())
        &&& (5 < t.len() ==> t[5].is_float_kind())
        &&& (6 < t.len() ==> t[6].is_float_kind())
    }

    /// The tail fits and every token it reads has the kind it expects.
    pub open spec fn spec_tail_wf(t: Seq<TkKind<'a>>) -> bool {
        &&& t.len() >= 7
        &&& t[0].is_int_kind()
        &&& t[1].is_int_kind()
        &&& t[2].is_int_kind()
        &&& t[3].is_int_kind()
        &&& t[4].is_float_kind()
        &&& t[5].is_float_kind()
        &&& t[6].is_float_kind()
    }

    /// The decoded record, given its base and its tail.
    pub open spec fn spec_value(b: AdvancedNode<'a>, t: Seq<TkKind<'a>>) -> Effect<'a>
        recommends
            Self::spec_tail_wf(t),
    {
        (Effect {
            advanced_node: b,
            flag_0: t[0].spec_int(),
            flag_1: t[1].spec_int(),
            flag_2: t[2].spec_int(),
            flag_3: t[3].spec_int(),
            field_0xdc: t[4].spec_float_bits(),
            field_0xe4: t[5].spec_float_bits(),
            field_0xe8: t[6].spec_float_bits(),
        })
    }

    /// Decode of the fields this record adds past its base.
    pub open spec fn spec_decode_tail(b: AdvancedNode<'a>, t: Seq<TkKind<'a>>) -> Result<
        Effect<'a>,
        Error,
    > {
        if !Self::spec_tail_prefix_ok(t) {
            Err(Error::InvalidTokenKind)
        } else if !Self::spec_tail_wf(t) {
            Err(Error::ParseError(ParseError::UnexpectedEnd))
        } else {
            Ok(Self::spec_value(b, t))
        }
    }

    /// What decoding yields: the base record, then the fixed tail.
    pub open spec fn spec_decode(s: Seq<TkKind<'a>>) -> Result<Effect<'a>, Error> {
        match AdvancedNode::spec_decode(s) {
            Err(e) => Err(e),
            Ok(b) => Self::spec_decode_tail(b, s.skip(b.spec_size())),
        }
    }

    /// Decodes the record from the front of `tokens`, exactly as
    /// `spec_decode` describes it.
    pub fn from_tokens(tokens: &[TkKind<'a>]) -> (r: Result<Self, Error>)
        ensures
            r == Self::spec_decode(tokens@),
            r matches Ok(v) ==> v.spec_size() <= tokens@.len(),
    {
        let n: usize = tokens.len();
        let advanced_node = AdvancedNode::from_tokens(tokens)?;
        let blen = advanced_node.size();
        let t = vstd::slice::slice_subrange(tokens, blen, n);
        proof {
            assert(t@ =~= tokens@.skip(advanced_node.spec_size()));
        }
        let flag_0 = read_int(t, 0)?;
        let flag_1 = read_int(t, 1)?;
        let flag_2 = read_int(t, 2)?;
        let flag_3 = read_int(t, 3)?;
        let field_0xdc = read_float(t, 4)?;
        let field_0xe4 = read_float(t, 5)?;
        let field_0xe8 = read_float(t, 6)?;
        Ok(Effect {
            advanced_node,
            flag_0,
            flag_1,
            flag_2,
            flag_3,
            field_0xdc,
            field_0xe4,
            field_0xe8,
        })
    }
}
} // verus!
