//! The camera node payload.
use crate::fetm::layout::{read_float, read_hex, read_int};
use crate::fetm::nodes::advanced_node::AdvancedNode;
use crate::fetm::{Error, TkKind};
use crate::ParseError;
use vstd::prelude::*;

verus! {

/// The camera node payload: an `AdvancedNode` followed by the field of
/// view and the two clip planes.
#[derive(Debug, PartialEq)]
pub struct CameraNode<'a> {
    pub base: AdvancedNode<'a>,
    pub actually_advanced_node_flag: usize,
    pub fov: u32,
    pub plane_1: u32,
    pub plane_2: u32,
}

impl<'a> CameraNode<'a> {
    /// Tokens this record consumes past its base record.
    pub const EXTRA: usize = 4;

    /// Number of tokens consumed: the base record plus the fixed tail.
    pub open spec fn spec_size(self) -> int {
        self.base.spec_size() + 4
    }

    /// Number of tokens consumed, as `spec_size`.
    pub fn size(&self) -> (r: usize)
        requires
            self.spec_size() <= usize::MAX,
        ensures
            r == self.spec_size(),
    {
        self.base.size() + 4
    }

    /// Kind correctness of however much of the tail is present
    /// (`t` starts right after the base record).
    pub open spec fn spec_tail_prefix_ok(t: Seq<TkKind<'a>>) -> bool {
        &&& (0 < t.len() ==> t[0].is_int_kind())
        &&& (1 < t.len() ==> t[1].is_float_kind())
        &&& (2 < t.len() ==> t[2].is_float_kind())
        &&& (3 < t.len() ==> t[3].is_float_kind())
    }

    /// The tail fits and every token it reads has the kind it expects.
    pub open spec fn spec_tail_wf(t: Seq<TkKind<'a>>) -> bool {
        &&& t.len() >= 4
        &&& t[0].is_int_kind()
        &&& t[1].is_float_kind()
        &&& t[2].is_float_kind()
        &&& t[3].is_float_kind()
    }

    /// The decoded record, given its base and its tail.
    pub open spec fn spec_value(b: AdvancedNode<'a>, t: Seq<TkKind<'a>>) -> CameraNode<'a>
        recommends
            Self::spec_tail_wf(t),
    {
        (CameraNode {
            base: b,
            actually_advanced_node_flag: t[0].spec_int(),
            fov: t[1].spec_float_bits(),
            plane_1: t[2].spec_float_bits(),
            plane_2: t[3].spec_float_bits(),
        })
    }

    /// Decode of the fields this record adds past its base.
    pub open spec fn spec_decode_tail(b: AdvancedNode<'a>, t: Seq<TkKind<'a>>) -> Result<
        CameraNode<'a>,
        Error,
    > {
        if !Self::spec_tail_prefix_ok(t) {
            Err(Error::InvalidTokenKind)
        } else if !Self::spec_tail_wf(t) {
            Err(Error::ParseError(ParseError::UnexpectedEnd))
        } else {
            Ok(Self::spec_value(b, t))
        }
    }

    /// What decoding yields: the base record, then the fixed tail.
    pub open spec fn spec_decode(s: Seq<TkKind<'a>>) -> Result<CameraNode<'a>, Error> {
        match AdvancedNode::spec_decode(s) {
            Err(e) => Err(e),
            Ok(b) => Self::spec_decode_tail(b, s.skip(b.spec_size())),
        }
    }

    /// Decodes the record from the front of `tokens`, exactly as
    /// `spec_decode` describes it.
    pub fn from_tokens(tokens: &[TkKind<'a>]) -> (r: Result<Self, Error>)
        ensures
            r == Self::spec_decode(tokens@),
            r matches Ok(v) ==> v.spec_size() <= tokens@.len(),
    {
        let n: usize = tokens.len();
        let base = AdvancedNode::from_tokens(tokens)?;
        let blen = base.size();
        let t = vstd::slice::slice_subrange(tokens, blen, n);
        proof {
            assert(t@ =~= tokens@.skip(base.spec_size()));
        }
        let actually_advanced_node_flag = read_int(t, 0)?;
        let fov = read_float(t, 1)?;
        let plane_1 = read_float(t, 2)?;
        let plane_2 = read_float(t, 3)?;
        Ok(CameraNode {
            base,
            actually_advanced_node_flag,
            fov,
            plane_1,
            plane_2,
        })
    }
}
} // verus!
