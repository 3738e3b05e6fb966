//! The controller node payload: a base node, a variable run of named input
//! channels (each with its own variable run of input descriptors), and the
//! stick calibration fields.
use crate::fetm::layout::{read_float, read_int, read_str};
use crate::fetm::{BaseNode, Error, TkKind};
use crate::ParseError;
use vstd::prelude::*;

verus! {

/// One input descriptor: four flag words.
#[derive(Copy, Clone, Debug, PartialEq)]
pub struct InputDesc {
    pub unk_flag_0: usize,
    pub unk_flag_1: usize,
    pub unk_flag_2: usize,
    pub unk_flag_3: usize,
}

/// One named input channel: five fixed fields, a descriptor count, and that
/// many four-word descriptors.
#[derive(Clone, Debug, PartialEq)]
pub struct InputChannel<'a> {
    pub channel_name: &'a [u8],
    pub has_unk_float_repeat: usize,
    pub unk_float_0: u32,
    pub unk_float_1: u32,
    pub unk_flag_0: usize,
    pub input_desc_count: usize,
    pub input_descs: Vec<InputDesc>,
}

impl<'a> InputChannel<'a> {
    /// Number of tokens consumed: the six fixed fields plus four per
    /// decoded descriptor.
    pub open spec fn spec_size(self) -> int {
        6 + 4 * self.input_descs@.len() as int
    }

    /// Number of tokens consumed, as `spec_size`.
    pub fn size(&self) -> (r: usize)
        requires
            self.spec_size() <= usize::MAX,
        ensures
            r == self.spec_size(),
    {
        6 + 4 * self.input_descs.len()
    }

    /// The decode of descriptor `n`, at its fixed position past the six
    /// fixed fields.
    pub open spec fn spec_desc_step(t: Seq<TkKind<'a>>, n: int) -> Result<InputDesc, Error> {
        let i = 6 + 4 * n;
        if i >= t.len() {
            Err(Error::ParseError(ParseError::UnexpectedEnd))
        } else if !t[i].is_int_kind() {
            Err(Error::InvalidTokenKind)
        } else if i + 1 >= t.len() {
            Err(Error::ParseError(ParseError::UnexpectedEnd))
        } else if !t[i + 1].is_int_kind() {
            Err(Error::InvalidTokenKind)
        } else if i + 2 >= t.len() {
            Err(Error::ParseError(ParseError::UnexpectedEnd))
        } else if !t[i + 2].is_int_kind() {
            Err(Error::InvalidTokenKind)
        } else if i + 3 >= t.len() {
            Err(Error::ParseError(ParseError::UnexpectedEnd))
        } else if !t[i + 3].is_int_kind() {
            Err(Error::InvalidTokenKind)
        } else {
            Ok(
                InputDesc {
                    unk_flag_0: t[i].spec_int(),
                    unk_flag_1: t[i + 1].spec_int(),
                    unk_flag_2: t[i + 2].spec_int(),
                    unk_flag_3: t[i + 3].spec_int(),
                },
            )
        }
    }

    /// The first `count` descriptors, or the first failure in stored order.
    pub open spec fn spec_descs(t: Seq<TkKind<'a>>, count: int) -> Result<Seq<InputDesc>, Error>
        decreases count,
    {
        if count <= 0 {
            Ok(Seq::empty())
        } else {
            match Self::spec_descs(t, count - 1) {
                Err(e) => Err(e),
                Ok(ds) => match Self::spec_desc_step(t, count - 1) {
                    Err(e) => Err(e),
                    Ok(d) => Ok(ds.push(d)),
                },
            }
        }
    }

    /// What decoding yields: the six fixed fields, then the descriptors.
    /// The result carries the descriptor list; the fixed fields are a
    /// function of the token slice.
    pub open spec fn spec_decode(t: Seq<TkKind<'a>>) -> Result<Seq<InputDesc>, Error> {
        if !((0 < t.len() ==> t[0].is_str_kind()) && (1 < t.len() ==> t[1].is_int_kind()) && (2
            < t.len() ==> t[2].is_float_kind()) && (3 < t.len() ==> t[3].is_float_kind()) && (4
            < t.len() ==> t[4].is_int_kind()) && (5 < t.len() ==> t[5].is_int_kind())) {
            Err(Error::InvalidTokenKind)
        } else if t.len() < 6 {
            Err(Error::ParseError(ParseError::UnexpectedEnd))
        } else {
            Self::spec_descs(t, t[5].spec_int() as int)
        }
    }

    /// This channel is exactly what decoding `t` yields.
    pub open spec fn spec_is_decode_of(self, t: Seq<TkKind<'a>>) -> bool {
        &&& t.len() >= 6
        &&& Self::spec_decode(t) == Ok::<Seq<InputDesc>, Error>(self.input_descs@)
        &&& self.channel_name == t[0].spec_str_ref()
        &&& self.has_unk_float_repeat == t[1].spec_int()
        &&& self.unk_float_0 == t[2].spec_float_bits()
        &&& self.unk_float_1 == t[3].spec_float_bits()
        &&& self.unk_flag_0 == t[4].spec_int()
        &&& self.input_desc_count == t[5].spec_int()
    }

    /// Decodes one channel from the front of `tokens`.
    #[verifier::loop_isolation(false)]
    pub fn from_tokens(tokens: &[TkKind<'a>]) -> (r: Result<Self, Error>)
        ensures
            r is Ok <==> Self::spec_decode(tokens@) is Ok,
            r matches Err(e) ==> Self::spec_decode(tokens@) == Err::<Seq<InputDesc>, Error>(e),
            r matches Ok(c) ==> c.spec_is_decode_of(tokens@),
            r matches Ok(c) ==> c.spec_size() <= tokens@.len(),
    {
        let n: usize = tokens.len();
        let channel_name = read_str(tokens, 0)?;
        let has_unk_float_repeat = read_int(tokens, 1)?;
        let unk_float_0 = read_float(tokens, 2)?;
        let unk_float_1 = read_float(tokens, 3)?;
        let unk_flag_0 = read_int(tokens, 4)?;
        let input_desc_count = read_int(tokens, 5)?;
        let mut input_descs: Vec<InputDesc> = Vec::new();
        let mut idx: usize = 6;
        let mut k: usize = 0;
        while k < input_desc_count
            invariant
                k <= input_desc_count,
                input_descs@.len() == k,
                idx == 6 + 4 * k,
                idx <= tokens@.len(),
                Self::spec_descs(tokens@, k as int) == Ok::<Seq<InputDesc>, Error>(
                    input_descs@,
                ),
            decreases input_desc_count - k,
        {
            let f0 = match read_int(tokens, idx) {
                Ok(v) => v,
                Err(e) => {
                    proof {
                        lemma_descs_err(tokens@, k as int, input_desc_count as int, e);
                    }
                    return Err(e);
                },
            };
            let f1 = match read_int(tokens, idx + 1) {
                Ok(v) => v,
                Err(e) => {
                    proof {
                        lemma_descs_err(tokens@, k as int, input_desc_count as int, e);
                    }
                    return Err(e);
                },
            };
            let f2 = match read_int(tokens, idx + 2) {
                Ok(v) => v,
                Err(e) => {
                    proof {
                        lemma_descs_err(tokens@, k as int, input_desc_count as int, e);
                    }
                    return Err(e);
                },
            };
            let f3 = match read_int(tokens, idx + 3) {
                Ok(v) => v,
                Err(e) => {
                    proof {
                        lemma_descs_err(tokens@, k as int, input_desc_count as int, e);
                    }
                    return Err(e);
                },
            };
            input_descs.push(
                InputDesc { unk_flag_0: f0, unk_flag_1: f1, unk_flag_2: f2, unk_flag_3: f3 },
            );
            idx = idx + 4;
            k = k + 1;
        }
        Ok(InputChannel {
            channel_name,
            has_unk_float_repeat,
            unk_float_0,
            unk_float_1,
            unk_flag_0,
            input_desc_count,
            input_descs,
        })
    }
}

/// Once descriptor `k` fails, every longer descriptor run fails the same way.
proof fn lemma_descs_err(t: Seq<TkKind>, k: int, c: int, e: Error)
    requires
        0 <= k < c,
        InputChannel::spec_descs(t, k) is Ok,
        InputChannel::spec_desc_step(t, k) == Err::<InputDesc, Error>(e),
    ensures
        InputChannel::spec_descs(t, c) == Err::<Seq<InputDesc>, Error>(e),
    decreases c,
{
    if c > k + 1 {
        lemma_descs_err(t, k, c - 1, e);
    }
}

/// The positions of a decoded channel run inside the token slice `t`:
/// channel `j` starts at `offs[j]`, each channel is exactly the decode of
/// the tokens from its own offset, and the offsets advance by each
/// channel's reported size.
pub open spec fn channels_layout<'a>(
    chs: Seq<InputChannel<'a>>,
    t: Seq<TkKind<'a>>,
    offs: Seq<int>,
) -> bool {
    &&& offs.len() == chs.len() + 1
    &&& offs[0] == 0
    &&& forall|j: int| 0 <= j < chs.len() ==> #[trigger] offs[j + 1] == offs[j] + chs[j].spec_size()
    &&& forall|j: int| 0 <= j < chs.len() ==> 0 <= #[trigger] offs[j] <= t.len()
    &&& forall|j: int|
        0 <= j < chs.len() ==> (#[trigger] chs[j]).spec_is_decode_of(t.skip(offs[j]))
}

/// The controller node payload: the base node, the channel run, and the two
/// stick calibration triples. `size` is the total consumed length in tokens,
/// recorded because the channel run has no declared width.
#[derive(Debug, PartialEq)]
pub struct Controller<'a> {
    pub base: BaseNode<'a>,
    pub unk_count_0: usize,
    pub channel_count: usize,
    pub input_channels: Vec<InputChannel<'a>>,
    pub left_stick_flag_0: usize,
    pub left_stick_flag_1: usize,
    pub left_stick_unk_float: u32,
    pub right_stick_flag_0: usize,
    pub right_stick_flag_1: usize,
    pub right_stick_unk_float: u32,
    pub size: usize,
}

impl<'a> Controller<'a> {
    /// Number of tokens consumed, as recorded during the decode.
    pub fn size(&self) -> (r: usize)
        ensures
            r == self.size,
    {
        self.size
    }

    /// Total width of `count` channels starting at the front of `t`, or the
    /// first failure in stored order.
    pub open spec fn spec_channels_result(t: Seq<TkKind<'a>>, count: int) -> Result<int, Error>
        decreases count,
    {
        if count <= 0 {
            Ok(0)
        } else {
            match InputChannel::spec_decode(t) {
                Err(e) => Err(e),
                Ok(ds) => {
                    let w = 6 + 4 * ds.len() as int;
                    if w <= t.len() {
                        match Self::spec_channels_result(t.skip(w), count - 1) {
                            Err(e) => Err(e),
                            Ok(w2) => Ok(w + w2),
                        }
                    } else {
                        Err(Error::ParseError(ParseError::UnexpectedEnd))
                    }
                },
            }
        }
    }

    /// Whether decoding a controller payload from `s` succeeds; on success
    /// the result is the total consumed length in tokens.
    pub open spec fn spec_result(s: Seq<TkKind<'a>>) -> Result<int, Error> {
        match BaseNode::spec_decode(s) {
            Err(e) => Err(e),
            Ok(b) => {
                let t = s.skip(b.spec_size());
                if !((0 < t.len() ==> t[0].is_int_kind()) && (1 < t.len()
                    ==> t[1].is_int_kind())) {
                    Err(Error::InvalidTokenKind)
                } else if t.len() < 2 {
                    Err(Error::ParseError(ParseError::UnexpectedEnd))
                } else {
                    match Self::spec_channels_result(t.skip(2), t[1].spec_int() as int) {
                        Err(e) => Err(e),
                        Ok(w) => {
                            let u = t.skip(2 + w);
                            if !((0 < u.len() ==> u[0].is_int_kind()) && (1 < u.len()
                                ==> u[1].is_int_kind()) && (2 < u.len() ==> u[2].is_float_kind())
                                && (3 < u.len() ==> u[3].is_int_kind()) && (4 < u.len()
                                ==> u[4].is_int_kind()) && (5 < u.len()
                                ==> u[5].is_float_kind())) {
                                Err(Error::InvalidTokenKind)
                            } else if u.len() < 6 {
                                Err(Error::ParseError(ParseError::UnexpectedEnd))
                            } else {
                                Ok(b.spec_size() + 2 + w + 6)
                            }
                        },
                    }
                }
            },
        }
    }

    /// This controller is exactly what decoding `s` yields: the base node,
    /// the header pair, a channel run laid out by some offset sequence, and
    /// the stick fields, with `size` the total consumed length.
    pub open spec fn spec_is_decode_of(self, s: Seq<TkKind<'a>>) -> bool {
        &&& BaseNode::spec_decode(s) matches Ok(b) && {
            let t = s.skip(b.spec_size());
            let w = self.size - b.spec_size() - 8;
            let u = t.skip(2 + w);
            &&& self.base == b
            &&& t.len() >= 2
            &&& self.unk_count_0 == t[0].spec_int()
            &&& self.channel_count == t[1].spec_int()
            &&& self.input_channels@.len() == self.channel_count
            &&& Self::spec_result(s) == Ok::<int, Error>(self.size as int)
            &&& (exists|offs: Seq<int>|
                channels_layout(self.input_channels@, t.skip(2), offs) && offs[self.input_channels@.len() as int]
                    == w)
            &&& self.left_stick_flag_0 == u[0].spec_int()
            &&& self.left_stick_flag_1 == u[1].spec_int()
            &&& self.left_stick_unk_float == u[2].spec_float_bits()
            &&& self.right_stick_flag_0 == u[3].spec_int()
            &&& self.right_stick_flag_1 == u[4].spec_int()
            &&& self.right_stick_unk_float == u[5].spec_float_bits()
        }
    }

    /// Decodes the controller payload from the front of `tokens`: success,
    /// error and consumed length are exactly `spec_result`, and on success
    /// every part is pinned by `spec_is_decode_of`.
    #[verifier::loop_isolation(false)]
    #[verifier::rlimit(100)]
    #[verifier::spinoff_prover]
    pub fn from_tokens(tokens: &[TkKind<'a>]) -> (r: Result<Self, Error>)
        ensures
            r is Ok <==> Self::spec_result(tokens@) is Ok,
            r matches Err(e) ==> Self::spec_result(tokens@) == Err::<int, Error>(e),
            r matches Ok(v) ==> v.spec_is_decode_of(tokens@),
            r matches Ok(v) ==> v.size <= tokens@.len(),
    {
        let n: usize = tokens.len();
        let base = BaseNode::from_tokens(tokens)?;
        let blen = base.size();
        let t = vstd::slice::slice_subrange(tokens, blen, n);
        proof {
            assert(t@ =~= tokens@.skip(base.spec_size()));
        }
        let unk_count_0 = read_int(t, 0)?;
        let channel_count = read_int(t, 1)?;
        let tn: usize = t.len();
        let t2 = vstd::slice::slice_subrange(t, 2, tn);
        proof {
            assert(t2@ =~= t@.skip(2));
        }
        let t2n: usize = t2.len();
        proof {
            assert(t2@.skip(0) =~= t2@);
        }
        let mut input_channels: Vec<InputChannel<'a>> = Vec::new();
        let mut consumed: usize = 0;
        let mut i: usize = 0;
        let ghost mut offs: Seq<int> = seq![0int];
        while i < channel_count
            invariant
                i <= channel_count,
                input_channels@.len() == i,
                consumed <= t2n,
                offs.len() == i + 1,
                offs[0] == 0,
                offs[i as int] == consumed,
                forall|j: int| 0 <= j < i ==> #[trigger] offs[j + 1] == offs[j] + input_channels@[j].spec_size(),
                forall|j: int| 0 <= j < i ==> 0 <= #[trigger] offs[j] <= t2@.len(),
                forall|j: int|
                    0 <= j < i ==> (#[trigger] input_channels@[j]).spec_is_decode_of(
                        t2@.skip(offs[j]),
                    ),
                Self::spec_channels_result(t2@.skip(consumed as int), channel_count - i) matches Ok(
                    w2,
                ) ==> Self::spec_channels_result(t2@, channel_count as int) == Ok::<int, Error>(
                    consumed + w2,
                ),
                Self::spec_channels_result(t2@.skip(consumed as int), channel_count - i) matches Err(
                    e,
                ) ==> Self::spec_channels_result(t2@, channel_count as int) == Err::<int, Error>(
                    e,
                ),
            decreases channel_count - i,
        {
            let sub = vstd::slice::slice_subrange(t2, consumed, t2n);
            proof {
                assert(sub@ =~= t2@.skip(consumed as int));
            }
            let ch = match InputChannel::from_tokens(sub) {
                Ok(c) => c,
                Err(e) => {
                    return Err(e);
                },
            };
            let w = ch.size();
            proof {
                assert(t2@.skip(consumed as int).skip(w as int) =~= t2@.skip(
                    consumed as int + w,
                ));
                offs = offs.push(consumed as int + w);
            }
            input_channels.push(ch);
            consumed = consumed + w;
            i = i + 1;
        }
        let u = vstd::slice::slice_subrange(t2, consumed, t2n);
        proof {
            assert(u@ =~= t2@.skip(consumed as int));
        }
        let left_stick_flag_0 = read_int(u, 0)?;
        let left_stick_flag_1 = read_int(u, 1)?;
        let left_stick_unk_float = read_float(u, 2)?;
        let right_stick_flag_0 = read_int(u, 3)?;
        let right_stick_flag_1 = read_int(u, 4)?;
        let right_stick_unk_float = read_float(u, 5)?;
        let size = blen + 2 + consumed + 6;
        proof {
            assert(channels_layout(input_channels@, t2@, offs));
            assert(Self::spec_channels_result(t2@.skip(consumed as int), 0) == Ok::<int, Error>(
                0,
            ));
            assert(t@.skip(2).skip(consumed as int) =~= t@.skip(2 + consumed as int));
            assert(offs[input_channels@.len() as int] == consumed as int);
        }
        let result = Controller {
            base,
            unk_count_0,
            channel_count,
            input_channels,
            left_stick_flag_0,
            left_stick_flag_1,
            left_stick_unk_float,
            right_stick_flag_0,
            right_stick_flag_1,
            right_stick_unk_float,
            size,
        };
        proof {
            let s = tokens@;
            let b = BaseNode::spec_decode(s).unwrap();
            let tt = s.skip(b.spec_size());
            let w = result.size - b.spec_size() - 8;
            assert(w == consumed);
            assert(tt =~= t@);
            assert(Self::spec_result(s) == Ok::<int, Error>(result.size as int));
            assert(tt.skip(2) =~= t2@);
            assert(channels_layout(result.input_channels@, tt.skip(2), offs));
            assert(exists|o: Seq<int>|
                channels_layout(result.input_channels@, tt.skip(2), o) && o[
                    result.input_channels@.len() as int
                ] == w);
            assert(result.spec_is_decode_of(s));
        }
        Ok(result)
    }
}

} // verus!
