//! The prop node payload: an advanced node, a mesh list whose pair count is
//! read from the stream, and a fixed run of trailing actor fields.
use crate::fetm::layout::{read_float, read_hex, read_int, read_str};
use crate::fetm::nodes::advanced_node::AdvancedNode;
use crate::fetm::{Error, TkKind};
use crate::ParseError;
use vstd::prelude::*;

verus! {

/// An `AdvancedNode`, six header fields, `token_count` pairs of
/// (mesh name, float), and fifteen trailing fields. The optional float
/// selected by `has_field_0xbc` shares its token with the pair count, so a
/// set flag can never decode: it is a kind mismatch.
#[derive(Debug, PartialEq)]
pub struct PropNode<'a> {
    pub advanced_node: AdvancedNode<'a>,
    pub skipped_token: usize,
    pub flag: usize,
    pub field_0xe0: usize,
    pub has_field_0xbc: usize,
    pub token_count: usize,
    pub skipped_token_1: usize,
    pub token_names: Vec<(&'a [u8], u32)>,
    pub field_0xd8: &'a [u8],
    pub field_0xf9: usize,
    pub field_0xd0: usize,
    pub flag_1: usize,
    pub flag_2: usize,
    pub field_0xdc: &'a [u8],
    pub field_0xfb: usize,
    pub flag_3: usize,
    pub field_0xe1: usize,
    pub has_lighting_rig: usize,
    pub flag_4: usize,
    pub field_0x54: usize,
    pub flag_5: usize,
    pub field_0xf0: &'a [u8],
    pub field_0xfa: usize,
}

impl<'a> PropNode<'a> {
    /// Tokens consumed past the advanced node besides the pairs: the six
    /// header fields and the fifteen trailing fields.
    pub const FIXED_EXTRA: usize = 21;

    /// Number of tokens consumed: the advanced node, the fixed fields and
    /// two tokens per decoded pair.
    pub open spec fn spec_size(self) -> int {
        self.advanced_node.spec_size() + 21 + 2 * self.token_names@.len()
    }

    /// Number of tokens consumed, as `spec_size`.
    pub fn size(&self) -> (r: usize)
        requires
            self.spec_size() <= usize::MAX,
        ensures
            r == self.spec_size(),
    {
        self.advanced_node.size() + 21 + 2 * self.token_names.len()
    }

    /// The decode of pair `n` (a mesh name string, then a float), at its
    /// fixed position past the six header fields.
    pub open spec fn spec_pair_step(t: Seq<TkKind<'a>>, n: int) -> Result<(&'a [u8], u32), Error> {
        let i = 6 + 2 * n;
        if i >= t.len() {
            Err(Error::ParseError(ParseError::UnexpectedEnd))
        } else if !t[i].is_str_kind() {
            Err(Error::InvalidTokenKind)
        } else if i + 1 >= t.len() {
            Err(Error::ParseError(ParseError::UnexpectedEnd))
        } else if !t[i + 1].is_float_kind() {
            Err(Error::InvalidTokenKind)
        } else {
            Ok((t[i].spec_str_ref(), t[i + 1].spec_float_bits()))
        }
    }

    /// The first `count` pairs, or the first failure in stored order.
    pub open spec fn spec_pairs(t: Seq<TkKind<'a>>, count: int) -> Result<
        Seq<(&'a [u8], u32)>,
        Error,
    >
        decreases count,
    {
        if count <= 0 {
            Ok(Seq::empty())
        } else {
            match Self::spec_pairs(t, count - 1) {
                Err(e) => Err(e),
                Ok(ps) => match Self::spec_pair_step(t, count - 1) {
                    Err(e) => Err(e),
                    Ok(p) => Ok(ps.push(p)),
                },
            }
        }
    }

    /// Kind correctness of however much of the trailing fields is present
    /// (`u` starts right after the pairs).
    pub open spec fn spec_trail_prefix_ok(u: Seq<TkKind<'a>>) -> bool {
        &&& (0 < u.len() ==> u[0].is_str_kind())
        &&& (1 < u.len() ==> u[1].is_int_kind())
        &&& (2 < u.len() ==> u[2].is_hex_kind())
        &&& (3 < u.len() ==> u[3].is_int_kind())
        &&& (4 < u.len() ==> u[4].is_int_kind())
        &&& (5 < u.len() ==> u[5].is_str_kind())
        &&& (6 < u.len() ==> u[6].is_int_kind())
        &&& (7 < u.len() ==> u[7].is_int_kind())
        &&& (8 < u.len() ==> u[8].is_int_kind())
        &&& (9 < u.len() ==> u[9].is_int_kind())
        &&& (10 < u.len() ==> u[10].is_int_kind())
        &&& (11 < u.len() ==> u[11].is_int_kind())
        &&& (12 < u.len() ==> u[12].is_int_kind())
        &&& (13 < u.len() ==> u[13].is_str_kind())
        &&& (14 < u.len() ==> u[14].is_int_kind())
    }

    /// The decoded record, given its parts (`ps` is the decoded pair list,
    /// passed through verbatim).
    pub open spec fn spec_value(
        adv: AdvancedNode<'a>,
        t: Seq<TkKind<'a>>,
        ps: Vec<(&'a [u8], u32)>,
        u: Seq<TkKind<'a>>,
    ) -> PropNode<'a> {
        (PropNode {
            advanced_node: adv,
            skipped_token: t[0].spec_int(),
            flag: t[1].spec_int(),
            field_0xe0: t[2].spec_int(),
            has_field_0xbc: t[3].spec_int(),
            token_count: t[4].spec_int(),
            skipped_token_1: t[5].spec_int(),
            token_names: ps,
            field_0xd8: u[0].spec_str_ref(),
            field_0xf9: u[1].spec_int(),
            field_0xd0: u[2].spec_hex(),
            flag_1: u[3].spec_int(),
            flag_2: u[4].spec_int(),
            field_0xdc: u[5].spec_str_ref(),
            field_0xfb: u[6].spec_int(),
            flag_3: u[7].spec_int(),
            field_0xe1: u[8].spec_int(),
            has_lighting_rig: u[9].spec_int(),
            flag_4: u[10].spec_int(),
            field_0x54: u[11].spec_int(),
            flag_5: u[12].spec_int(),
            field_0xf0: u[13].spec_str_ref(),
            field_0xfa: u[14].spec_int(),
        })
    }

    /// Decode of everything past the advanced node, yielding the pair list
    /// (the rest of the record is a function of the token slice alone).
    pub open spec fn spec_decode_tail(t: Seq<TkKind<'a>>) -> Result<
        Seq<(&'a [u8], u32)>,
        Error,
    > {
        if !((0 < t.len() ==> t[0].is_int_kind()) && (1 < t.len() ==> t[1].is_int_kind()) && (2
            < t.len() ==> t[2].is_int_kind()) && (3 < t.len() ==> t[3].is_int_kind()) && (4
            < t.len() ==> t[4].is_int_kind()) && (5 < t.len() ==> t[5].is_int_kind())) {
            Err(Error::InvalidTokenKind)
        } else if t.len() < 6 {
            Err(Error::ParseError(ParseError::UnexpectedEnd))
        } else if t[3].spec_int() != 0 {
            Err(Error::InvalidTokenKind)
        } else {
            let count = t[4].spec_int() as int;
            match Self::spec_pairs(t, count) {
                Err(e) => Err(e),
                Ok(ps) => {
                    let u = t.skip(6 + 2 * count);
                    if !Self::spec_trail_prefix_ok(u) {
                        Err(Error::InvalidTokenKind)
                    } else if u.len() < 15 {
                        Err(Error::ParseError(ParseError::UnexpectedEnd))
                    } else {
                        Ok(ps)
                    }
                },
            }
        }
    }

    /// What decoding yields: the advanced node, the six header fields, the
    /// pairs, then the trailing fields. The result carries the pair list;
    /// every other field of the record is a function of the token slice.
    pub open spec fn spec_decode(s: Seq<TkKind<'a>>) -> Result<Seq<(&'a [u8], u32)>, Error> {
        match AdvancedNode::spec_decode(s) {
            Err(e) => Err(e),
            Ok(adv) => Self::spec_decode_tail(s.skip(adv.spec_size())),
        }
    }

    /// This value is exactly what decoding `s` yields: the advanced node and
    /// the pair list are the decode results, and every field is pinned by
    /// `spec_value` over the token slice.
    pub open spec fn spec_is_decode_of(self, s: Seq<TkKind<'a>>) -> bool {
        &&& AdvancedNode::spec_decode(s) matches Ok(adv) && {
            let t = s.skip(adv.spec_size());
            &&& Self::spec_decode(s) == Ok::<Seq<(&'a [u8], u32)>, Error>(self.token_names@)
            &&& self == Self::spec_value(
                adv,
                t,
                self.token_names,
                t.skip(6 + 2 * self.token_names@.len() as int),
            )
        }
    }

    /// Decodes the record from the front of `tokens`: its success, its error
    /// and its pair list are exactly `spec_decode` of the tokens, and on
    /// success every field is pinned by `spec_value`.
    #[verifier::loop_isolation(false)]
    #[verifier::rlimit(60)]
    pub fn from_tokens(tokens: &[TkKind<'a>]) -> (r: Result<Self, Error>)
        ensures
            r is Ok <==> Self::spec_decode(tokens@) is Ok,
            r matches Err(e) ==> Self::spec_decode(tokens@) == Err::<
                Seq<(&'a [u8], u32)>,
                Error,
            >(e),
            r matches Ok(v) ==> v.spec_is_decode_of(tokens@),
            r matches Ok(v) ==> v.spec_size() <= tokens@.len(),
    {
        let n: usize = tokens.len();
        let advanced_node = AdvancedNode::from_tokens(tokens)?;
        let blen = advanced_node.size();
        let t = vstd::slice::slice_subrange(tokens, blen, n);
        proof {
            assert(t@ =~= tokens@.skip(advanced_node.spec_size()));
        }
        let skipped_token = read_int(t, 0)?;
        let flag = read_int(t, 1)?;
        let field_0xe0 = read_int(t, 2)?;
        let has_field_0xbc = read_int(t, 3)?;
        let token_count = read_int(t, 4)?;
        let skipped_token_1 = read_int(t, 5)?;
        if has_field_0xbc != 0 {
            return Err(Error::InvalidTokenKind);
        }
        let mut token_names: Vec<(&'a [u8], u32)> = Vec::new();
        let mut idx: usize = 6;
        let mut k: usize = 0;
        while k < token_count
            invariant
                k <= token_count,
                token_names@.len() == k,
                idx == 6 + 2 * k,
                idx <= t@.len(),
                Self::spec_pairs(t@, k as int) == Ok::<Seq<(&'a [u8], u32)>, Error>(
                    token_names@,
                ),
            decreases token_count - k,
        {
            let name = match read_str(t, idx) {
                Ok(v) => v,
                Err(e) => {
                    proof {
                        lemma_pairs_err(t@, k as int, token_count as int, e);
                    }
                    return Err(e);
                },
            };
            let val = match read_float(t, idx + 1) {
                Ok(v) => v,
                Err(e) => {
                    proof {
                        lemma_pairs_err(t@, k as int, token_count as int, e);
                    }
                    return Err(e);
                },
            };
            token_names.push((name, val));
            idx = idx + 2;
            k = k + 1;
        }
        let m: usize = t.len();
        let u = vstd::slice::slice_subrange(t, idx, m);
        proof {
            assert(u@ =~= t@.skip(6 + 2 * (token_count as int)));
        }
        let field_0xd8 = read_str(u, 0)?;
        let field_0xf9 = read_int(u, 1)?;
        let field_0xd0 = read_hex(u, 2)?;
        let flag_1 = read_int(u, 3)?;
        let flag_2 = read_int(u, 4)?;
        let field_0xdc = read_str(u, 5)?;
        let field_0xfb = read_int(u, 6)?;
        let flag_3 = read_int(u, 7)?;
        let field_0xe1 = read_int(u, 8)?;
        let has_lighting_rig = read_int(u, 9)?;
        let flag_4 = read_int(u, 10)?;
        let field_0x54 = read_int(u, 11)?;
        let flag_5 = read_int(u, 12)?;
        let field_0xf0 = read_str(u, 13)?;
        let field_0xfa = read_int(u, 14)?;
        Ok(PropNode {
            advanced_node,
            skipped_token,
            flag,
            field_0xe0,
            has_field_0xbc,
            token_count,
            skipped_token_1,
            token_names,
            field_0xd8,
            field_0xf9,
            field_0xd0,
            flag_1,
            flag_2,
            field_0xdc,
            field_0xfb,
            flag_3,
            field_0xe1,
            has_lighting_rig,
            flag_4,
            field_0x54,
            flag_5,
            field_0xf0,
            field_0xfa,
        })
    }
}

/// Once pair `k` fails, every longer pair run fails the same way.
proof fn lemma_pairs_err(t: Seq<TkKind>, k: int, c: int, e: Error)
    requires
        0 <= k < c,
        PropNode::spec_pairs(t, k) is Ok,
        PropNode::spec_pair_step(t, k) == Err::<(&[u8], u32), Error>(e),
    ensures
        PropNode::spec_pairs(t, c) == Err::<Seq<(&[u8], u32)>, Error>(e),
    decreases c,
{
    if c > k + 1 {
        lemma_pairs_err(t, k, c - 1, e);
    }
}

} // verus!
