//! The advanced node record: the shared base node, twelve override fields,
//! and a second embedded entity class.
use crate::fetm::layout::{read_float, read_hex, read_int};
use crate::fetm::{BaseNode, EntityClass, Error, TkKind};
use crate::ParseError;
use vstd::prelude::*;

verus! {

/// A `BaseNode` followed by four optional-override pairs, two identifiers,
/// an optional float, and an embedded entity class of its own.
#[derive(Debug, PartialEq)]
pub struct AdvancedNode<'a> {
    pub node: BaseNode<'a>,
    pub has_0xb0: usize,
    pub field_0xb0: usize,
    pub has_0xb1: usize,
    pub field_0xb1: usize,
    pub has_0xb2: usize,
    pub field_0xb2: usize,
    pub has_0xb3: usize,
    pub field_0xb3: usize,
    pub field_0xc0: usize,
    pub field_0x34: usize,
    pub has_0xbc: usize,
    pub field_0xbc: u32,
    pub entity_class: EntityClass<'a>,
}

impl<'a> AdvancedNode<'a> {
    /// Tokens between the base node and the embedded entity class.
    pub const EXTRA: usize = 12;

    /// Number of tokens consumed: base node, twelve fields, entity class.
    pub open spec fn spec_size(self) -> int {
        self.node.spec_size() + 12 + self.entity_class.spec_len()
    }

    /// Number of tokens consumed, as `spec_size`.
    pub fn size(&self) -> (r: usize)
        requires
            self.spec_size() <= usize::MAX,
        ensures
            r == self.spec_size(),
    {
        self.node.size() + 12 + self.entity_class.len()
    }

    /// Kind correctness of however much of the twelve fields is present
    /// (`t` starts right after the base node).
    pub open spec fn spec_tail_prefix_ok(t: Seq<TkKind<'a>>) -> bool {
        &&& (0 < t.len() ==> t[0].is_int_kind())
        &&& (1 < t.len() ==> t[1].is_int_kind())
        &&& (2 < t.len() ==> t[2].is_int_kind())
        &&& (3 < t.len() ==> t[3].is_int_kind())
        &&& (4 < t.len() ==> t[4].is_int_kind())
        &&& (5 < t.len() ==> t[5].is_int_kind())
        &&& (6 < t.len() ==> t[6].is_int_kind())
        &&& (7 < t.len() ==> t[7].is_int_kind())
        &&& (8 < t.len() ==> t[8].is_hex_kind())
        &&& (9 < t.len() ==> t[9].is_hex_kind())
        &&& (10 < t.len() ==> t[10].is_int_kind())
        &&& (11 < t.len() ==> t[11].is_float_kind())
    }

    /// The decoded record, given its base, its field run and its class.
    pub open spec fn spec_value(b: BaseNode<'a>, t: Seq<TkKind<'a>>, c: EntityClass<'a>) -> AdvancedNode<'a> {
        (AdvancedNode {
            node: b,
            has_0xb0: t[0].spec_int(),
            field_0xb0: t[1].spec_int(),
            has_0xb1: t[2].spec_int(),
            field_0xb1: t[3].spec_int(),
            has_0xb2: t[4].spec_int(),
            field_0xb2: t[5].spec_int(),
            has_0xb3: t[6].spec_int(),
            field_0xb3: t[7].spec_int(),
            field_0xc0: t[8].spec_hex(),
            field_0x34: t[9].spec_hex(),
            has_0xbc: t[10].spec_int(),
            field_0xbc: t[11].spec_float_bits(),
            entity_class: c,
        })
    }

    /// Decode of everything past the base node.
    pub open spec fn spec_decode_tail(b: BaseNode<'a>, t: Seq<TkKind<'a>>) -> Result<
        AdvancedNode<'a>,
        Error,
    > {
        if !Self::spec_tail_prefix_ok(t) {
            Err(Error::InvalidTokenKind)
        } else if t.len() < 12 {
            Err(Error::ParseError(ParseError::UnexpectedEnd))
        } else {
            match EntityClass::spec_decode(t.skip(12)) {
                Err(e) => Err(e),
                Ok(c) => Ok(Self::spec_value(b, t, c)),
            }
        }
    }

    /// What decoding yields: the base node, the twelve fields, then the
    /// embedded entity class.
    pub open spec fn spec_decode(s: Seq<TkKind<'a>>) -> Result<AdvancedNode<'a>, Error> {
        match BaseNode::spec_decode(s) {
            Err(e) => Err(e),
            Ok(b) => Self::spec_decode_tail(b, s.skip(b.spec_size())),
        }
    }

    /// Decodes the record from the front of `tokens`, exactly as
    /// `spec_decode` describes it.
    pub fn from_tokens(tokens: &[TkKind<'a>]) -> (r: Result<Self, Error>)
        ensures
            r == Self::spec_decode(tokens@),
            r matches Ok(v) ==> v.spec_size() <= tokens@.len(),
    {
        let node = BaseNode::from_tokens(tokens)?;
        let blen = node.size();
        let n: usize = tokens.len();
        let t = vstd::slice::slice_subrange(tokens, blen, n);
        proof {
            assert(t@ =~= tokens@.skip(node.spec_size()));
        }
        let has_0xb0 = read_int(t, 0)?;
        let field_0xb0 = read_int(t, 1)?;
        let has_0xb1 = read_int(t, 2)?;
        let field_0xb1 = read_int(t, 3)?;
        let has_0xb2 = read_int(t, 4)?;
        let field_0xb2 = read_int(t, 5)?;
        let has_0xb3 = read_int(t, 6)?;
        let field_0xb3 = read_int(t, 7)?;
        let field_0xc0 = read_hex(t, 8)?;
        let field_0x34 = read_hex(t, 9)?;
        let has_0xbc = read_int(t, 10)?;
        let field_0xbc = read_float(t, 11)?;
        let m: usize = t.len();
        let class_tokens = vstd::slice::slice_subrange(t, 12, m);
        proof {
            assert(class_tokens@ =~= t@.skip(12));
            crate::fetm::lemma_entity_class_fits(class_tokens@);
        }
        let entity_class = EntityClass::from_tokens(class_tokens)?;
        Ok(AdvancedNode {
            node,
            has_0xb0,
            field_0xb0,
            has_0xb1,
            field_0xb1,
            has_0xb2,
            field_0xb2,
            has_0xb3,
            field_0xb3,
            field_0xc0,
            field_0x34,
            has_0xbc,
            field_0xbc,
            entity_class,
        })
    }
}

} // verus!
