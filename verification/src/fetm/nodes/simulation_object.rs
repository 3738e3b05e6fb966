//! The simulation-object node payload: a prop node, one integer, and a
//! second embedded entity class.
use crate::fetm::layout::read_int;
use crate::fetm::nodes::prop_node::PropNode;
use crate::fetm::{EntityClass, Error, TkKind};
use crate::ParseError;
use vstd::prelude::*;

verus! {

/// A `PropNode` followed by one integer and a nested entity class.
#[derive(Debug, PartialEq)]
pub struct SimulationObject<'a> {
    pub prop_node: PropNode<'a>,
    pub field_0x140: usize,
    pub entity_class: EntityClass<'a>,
}

impl<'a> SimulationObject<'a> {
    /// Number of tokens consumed: the prop node, the integer, the class.
    pub open spec fn spec_size(self) -> int {
        self.prop_node.spec_size() + 1 + self.entity_class.spec_len()
    }

    /// Number of tokens consumed, as `spec_size`.
    pub fn size(&self) -> (r: usize)
        requires
            self.spec_size() <= usize::MAX,
        ensures
            r == self.spec_size(),
    {
        self.prop_node.size() + 1 + self.entity_class.len()
    }

    /// Decode of everything past the prop node.
    pub open spec fn spec_decode_tail(t: Seq<TkKind<'a>>) -> Result<EntityClass<'a>, Error> {
        if t.len() == 0 {
            Err(Error::ParseError(ParseError::UnexpectedEnd))
        } else if !t[0].is_int_kind() {
            Err(Error::InvalidTokenKind)
        } else {
            EntityClass::spec_decode(t.skip(1))
        }
    }

    /// What decoding yields past the prop node's own outcome: the trailing
    /// integer and the nested entity class.
    pub open spec fn spec_decode(s: Seq<TkKind<'a>>) -> Result<EntityClass<'a>, Error> {
        match PropNode::spec_decode(s) {
            Err(e) => Err(e),
            Ok(ps) => {
                let adv = crate::fetm::nodes::advanced_node::AdvancedNode::spec_decode(
                    s,
                ).unwrap();
                Self::spec_decode_tail(s.skip(adv.spec_size() + 21 + 2 * ps.len() as int))
            },
        }
    }

    /// This value is exactly what decoding `s` yields.
    pub open spec fn spec_is_decode_of(self, s: Seq<TkKind<'a>>) -> bool {
        &&& self.prop_node.spec_is_decode_of(s)
        &&& {
            let t = s.skip(self.prop_node.spec_size());
            &&& self.field_0x140 == t[0].spec_int()
            &&& Self::spec_decode(s) == Ok::<EntityClass<'a>, Error>(self.entity_class)
        }
    }

    /// Decodes the record from the front of `tokens`: the prop node, then
    /// the trailing integer, then the nested entity class, exactly as
    /// `spec_decode` classifies it.
    pub fn from_tokens(tokens: &[TkKind<'a>]) -> (r: Result<Self, Error>)
        ensures
            r is Ok <==> Self::spec_decode(tokens@) is Ok,
            r matches Err(e) ==> Self::spec_decode(tokens@) == Err::<EntityClass<'a>, Error>(e),
            r matches Ok(v) ==> v.spec_is_decode_of(tokens@),
            r matches Ok(v) ==> v.spec_size() <= tokens@.len(),
    {
        let n: usize = tokens.len();
        let prop_node = PropNode::from_tokens(tokens)?;
        let plen = prop_node.size();
        let t = vstd::slice::slice_subrange(tokens, plen, n);
        proof {
            assert(t@ =~= tokens@.skip(prop_node.spec_size()));
        }
        let field_0x140 = read_int(t, 0)?;
        let m: usize = t.len();
        let class_tokens = vstd::slice::slice_subrange(t, 1, m);
        proof {
            assert(class_tokens@ =~= t@.skip(1));
            crate::fetm::lemma_entity_class_fits(class_tokens@);
        }
        let entity_class = EntityClass::from_tokens(class_tokens)?;
        Ok(SimulationObject { prop_node, field_0x140, entity_class })
    }
}

} // verus!
