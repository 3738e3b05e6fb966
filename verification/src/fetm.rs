//! The token stream that carries a level's object graph.
//!
//! A level file is a flat byte buffer: a three-byte magic prefix, then a
//! sequence of self-describing tokens, ending in a `"end\0"` sentinel. Each
//! token is one tag byte followed by a payload whose width is a function of
//! the tag alone (strings run to the next NUL). Nothing in the format stores
//! record lengths, so every structured decoder in the submodules reports how
//! many tokens it consumed; this module provides the byte-to-token layer those
//! decoders sit on.
//!
//! 32-bit float payloads are kept as their raw big-endian bit patterns
//! (`u32`): the decoders never do float arithmetic, and the bit pattern is the
//! exact on-disk value.
use crate::byteread::{be16_at, be32_at, spec_be16, spec_be32};
use crate::fetm::entityclasses::main_character::MainCharacter;
use crate::fetm::layout::{read_float, read_hex, read_int, read_str};
use crate::fetm::nodes::camera::CameraNode;
use crate::fetm::nodes::controller::Controller;
use crate::fetm::nodes::decal_system::DecalSystem;
use crate::fetm::nodes::effect::Effect;
use crate::fetm::nodes::node::{Attachment, Transform};
use crate::fetm::nodes::simulation_object::SimulationObject;
use crate::ParseError;
use vstd::prelude::*;

pub mod entityclasses;
pub mod laws;
pub mod names;
pub mod layout;
pub mod nodes;

verus! {

broadcast use vstd::slice::axiom_spec_len;

/// Failures of the token layer and of the structured decoders above it.
///
/// `InvalidTokenKind`: a token is present but has the wrong primitive kind
/// (or an invalid tag byte). `CurrentlyNotSupported`: the stream is
/// structurally valid but uses a construct whose layout was never
/// reverse-engineered (action lists, spline transforms). `ParseError` wraps
/// the byte-level failures, chiefly `UnexpectedEnd`.
#[derive(Copy, Clone, Debug, PartialEq, Eq, Structural)]
pub enum Error {
    InvalidTokenKind,
    CurrentlyNotSupported,
    ParseError(ParseError),
}

/// The eight primitive token kinds, in tag-byte order.
#[derive(Copy, Clone, Debug, PartialEq, Eq, Structural)]
pub enum TokenKind {
    I8,
    U8,
    I16,
    U16,
    U32,
    Hex8,
    F32,
    Str,
}

impl TokenKind {
    /// Kind selected by a tag byte; tags outside `0..=7` are invalid.
    pub open spec fn spec_from_byte(b: u8) -> Result<TokenKind, Error> {
        if b == 0 {
            Ok(TokenKind::I8)
        } else if b == 1 {
            Ok(TokenKind::U8)
        } else if b == 2 {
            Ok(TokenKind::I16)
        } else if b == 3 {
            Ok(TokenKind::U16)
        } else if b == 4 {
            Ok(TokenKind::U32)
        } else if b == 5 {
            Ok(TokenKind::Hex8)
        } else if b == 6 {
            Ok(TokenKind::F32)
        } else if b == 7 {
            Ok(TokenKind::Str)
        } else {
            Err(Error::InvalidTokenKind)
        }
    }

    /// Decodes one tag byte.
    pub fn from_bytes(input: &u8) -> (r: Result<Self, Error>)
        ensures
            r == Self::spec_from_byte(*input),
    {
        match *input {
            0 => Ok(TokenKind::I8),
            1 => Ok(TokenKind::U8),
            2 => Ok(TokenKind::I16),
            3 => Ok(TokenKind::U16),
            4 => Ok(TokenKind::U32),
            5 => Ok(TokenKind::Hex8),
            6 => Ok(TokenKind::F32),
            7 => Ok(TokenKind::Str),
            _ => Err(Error::InvalidTokenKind),
        }
    }
}

/// One decoded token. `Hex8` carries the same 32 bits as `U32` but is kept
/// distinct: call sites use it for identifiers and checksums, never counts.
/// `F32` holds the raw bit pattern of the 32-bit float. `Str` borrows the
/// payload bytes (without the terminating NUL) from the input buffer.
#[derive(Copy, Clone, Debug)]
pub enum TkKind<'a> {
    I8(i8),
    U8(u8),
    I16(i16),
    U16(u16),
    U32(u32),
    Hex8(u32),
    F32(u32),
    Str(&'a [u8]),
}

/// The mathematical value of a token: `TkKind` with the borrowed payload
/// replaced by the byte sequence it denotes.
pub enum TokenValue {
    I8(i8),
    U8(u8),
    I16(i16),
    U16(u16),
    U32(u32),
    Hex8(u32),
    F32(u32),
    Str(Seq<u8>),
}

impl<'a> View for TkKind<'a> {
    type V = TokenValue;

    open spec fn view(&self) -> TokenValue {
        match *self {
            TkKind::I8(v) => TokenValue::I8(v),
            TkKind::U8(v) => TokenValue::U8(v),
            TkKind::I16(v) => TokenValue::I16(v),
            TkKind::U16(v) => TokenValue::U16(v),
            TkKind::U32(v) => TokenValue::U32(v),
            TkKind::Hex8(v) => TokenValue::Hex8(v),
            TkKind::F32(v) => TokenValue::F32(v),
            TkKind::Str(s) => TokenValue::Str(s@),
        }
    }
}

impl TokenValue {
    /// On-disk width of the token in bytes: one tag byte plus the payload
    /// (strings also count their terminating NUL).
    pub open spec fn spec_len(self) -> int {
        match self {
            TokenValue::I8(_) => 2,
            TokenValue::U8(_) => 2,
            TokenValue::I16(_) => 3,
            TokenValue::U16(_) => 3,
            TokenValue::U32(_) => 5,
            TokenValue::Hex8(_) => 5,
            TokenValue::F32(_) => 5,
            TokenValue::Str(s) => s.len() + 2int,
        }
    }
}

/// Index of the first NUL byte in `s`, if any.
pub open spec fn spec_find_nul(s: Seq<u8>) -> Option<int>
    decreases s.len(),
{
    if s.len() == 0 {
        None
    } else if s[0] == 0 {
        Some(0)
    } else {
        match spec_find_nul(s.skip(1)) {
            None => None,
            Some(i) => Some(i + 1),
        }
    }
}

pub proof fn lemma_find_nul_some(s: Seq<u8>, j: int)
    requires
        0 <= j < s.len(),
        s[j] == 0,
        forall|k: int| 0 <= k < j ==> s[k] != 0,
    ensures
        spec_find_nul(s) == Some(j),
    decreases j,
{
    if j > 0 {
        lemma_find_nul_some(s.skip(1), j - 1);
    }
}

pub proof fn lemma_find_nul_none(s: Seq<u8>)
    requires
        forall|k: int| 0 <= k < s.len() ==> s[k] != 0,
    ensures
        spec_find_nul(s) == None::<int>,
    decreases s.len(),
{
    if s.len() > 0 {
        lemma_find_nul_none(s.skip(1));
    }
}

pub proof fn lemma_find_nul_props(s: Seq<u8>)
    ensures
        spec_find_nul(s) matches Some(j) ==> 0 <= j < s.len() && s[j] == 0 && (forall|k: int|
            0 <= k < j ==> s[k] != 0),
        spec_find_nul(s) is None ==> forall|k: int| 0 <= k < s.len() ==> s[k] != 0,
    decreases s.len(),
{
    if s.len() > 0 && s[0] != 0 {
        lemma_find_nul_props(s.skip(1));
        match spec_find_nul(s.skip(1)) {
            Some(i) => {
                assert(s[i + 1] == s.skip(1)[i]);
                assert forall|k: int| 0 <= k < i + 1 implies s[k] != 0 by {
                    if k > 0 {
                        assert(s[k] == s.skip(1)[k - 1]);
                    }
                }
            },
            None => {
                assert forall|k: int| 0 <= k < s.len() implies s[k] != 0 by {
                    if k > 0 {
                        assert(s[k] == s.skip(1)[k - 1]);
                    }
                }
            },
        }
    }
}

/// The token denoted by the front of the byte sequence `d`, with its width.
///
/// An empty sequence, or one that ends before the payload does, is
/// `UnexpectedEnd`; a tag byte outside `0..=7` is `InvalidTokenKind`; a
/// string token whose NUL terminator is not within the buffer is
/// `UnexpectedEnd` (the scan never runs past the end).
pub open spec fn spec_token(d: Seq<u8>) -> Result<(TokenValue, int), Error> {
    if d.len() == 0 {
        Err(Error::ParseError(ParseError::UnexpectedEnd))
    } else {
        let tag = d[0];
        if tag == 0 {
            if d.len() >= 2 {
                Ok((TokenValue::I8(d[1] as i8), 2))
            } else {
                Err(Error::ParseError(ParseError::UnexpectedEnd))
            }
        } else if tag == 1 {
            if d.len() >= 2 {
                Ok((TokenValue::U8(d[1]), 2))
            } else {
                Err(Error::ParseError(ParseError::UnexpectedEnd))
            }
        } else if tag == 2 {
            if d.len() >= 3 {
                Ok((TokenValue::I16(be16_at(d, 1) as i16), 3))
            } else {
                Err(Error::ParseError(ParseError::UnexpectedEnd))
            }
        } else if tag == 3 {
            if d.len() >= 3 {
                Ok((TokenValue::U16(be16_at(d, 1)), 3))
            } else {
                Err(Error::ParseError(ParseError::UnexpectedEnd))
            }
        } else if tag == 4 {
            if d.len() >= 5 {
                Ok((TokenValue::U32(be32_at(d, 1)), 5))
            } else {
                Err(Error::ParseError(ParseError::UnexpectedEnd))
            }
        } else if tag == 5 {
            if d.len() >= 5 {
                Ok((TokenValue::Hex8(be32_at(d, 1)), 5))
            } else {
                Err(Error::ParseError(ParseError::UnexpectedEnd))
            }
        } else if tag == 6 {
            if d.len() >= 5 {
                Ok((TokenValue::F32(be32_at(d, 1)), 5))
            } else {
                Err(Error::ParseError(ParseError::UnexpectedEnd))
            }
        } else if tag == 7 {
            match spec_find_nul(d.skip(1)) {
                Some(n) => Ok((TokenValue::Str(d.subrange(1, 1 + n)), n + 2)),
                None => Err(Error::ParseError(ParseError::UnexpectedEnd)),
            }
        } else {
            Err(Error::InvalidTokenKind)
        }
    }
}

/// The whole byte sequence as a token sequence: tokens are read strictly left
/// to right, and the sequence ends exactly at the end of the buffer.
pub open spec fn spec_tokenize(d: Seq<u8>) -> Result<Seq<TokenValue>, Error>
    decreases d.len(),
{
    if d.len() == 0 {
        Ok(Seq::empty())
    } else {
        match spec_token(d) {
            Err(e) => Err(e),
            Ok((t, w)) => if 1 <= w <= d.len() {
                match spec_tokenize(d.skip(w)) {
                    Err(e) => Err(e),
                    Ok(rest) => Ok(seq![t] + rest),
                }
            } else {
                Err(Error::ParseError(ParseError::UnexpectedEnd))
            },
        }
    }
}

/// A decoded token's width always covers at least the tag byte and never
/// runs past the buffer.
pub proof fn lemma_token_width(d: Seq<u8>)
    ensures
        spec_token(d) matches Ok(p) ==> 2 <= p.1 <= d.len() && p.0.spec_len() == p.1,
{
    if spec_token(d) is Ok && d[0] == 7 {
        lemma_find_nul_props(d.skip(1));
        let n = spec_find_nul(d.skip(1)).unwrap();
        assert(d.subrange(1, 1 + n).len() == n);
    }
}

/// Finds the first NUL byte at or after `start`.
fn find_nul(data: &[u8], start: usize) -> (r: Option<usize>)
    requires
        start <= data@.len(),
    ensures
        r matches Some(j) ==> start <= j < data@.len() && data@[j as int] == 0 && (forall|k: int|
            start <= k < j ==> data@[k] != 0),
        r is None ==> forall|k: int| start <= k < data@.len() ==> data@[k] != 0,
{
    let mut i = start;
    while i < data.len()
        invariant
            start <= i <= data@.len(),
            forall|k: int| start <= k < i ==> data@[k] != 0,
        decreases data@.len() - i,
    {
        if *vstd::slice::slice_index_get(data, i) == 0 {
            return Some(i);
        }
        i = i + 1;
    }
    None
}

impl<'a> TkKind<'a> {
    /// Decodes the token at the front of `data`, exactly as `spec_token`
    /// describes it.
    pub fn from_bytes(data: &'a [u8]) -> (r: Result<TkKind<'a>, Error>)
        ensures
            r is Ok <==> spec_token(data@) is Ok,
            spec_token(data@) matches Ok(p) ==> r matches Ok(t) && t@ == p.0,
            spec_token(data@) matches Err(e) ==> r == Err::<TkKind<'a>, Error>(e),
    {
        if data.len() == 0 {
            return Err(Error::ParseError(ParseError::UnexpectedEnd));
        }
        let tag = *vstd::slice::slice_index_get(data, 0);
        match tag {
            0 => {
                if data.len() >= 2 {
                    Ok(TkKind::I8(*vstd::slice::slice_index_get(data, 1) as i8))
                } else {
                    Err(Error::ParseError(ParseError::UnexpectedEnd))
                }
            },
            1 => {
                if data.len() >= 2 {
                    Ok(TkKind::U8(*vstd::slice::slice_index_get(data, 1)))
                } else {
                    Err(Error::ParseError(ParseError::UnexpectedEnd))
                }
            },
            2 => {
                if data.len() >= 3 {
                    Ok(TkKind::I16(crate::byteread::i16_be_at(data, 1)))
                } else {
                    Err(Error::ParseError(ParseError::UnexpectedEnd))
                }
            },
            3 => {
                if data.len() >= 3 {
                    Ok(TkKind::U16(crate::byteread::u16_be_at(data, 1)))
                } else {
                    Err(Error::ParseError(ParseError::UnexpectedEnd))
                }
            },
            4 => {
                if data.len() >= 5 {
                    Ok(TkKind::U32(crate::byteread::u32_be_at(data, 1)))
                } else {
                    Err(Error::ParseError(ParseError::UnexpectedEnd))
                }
            },
            5 => {
                if data.len() >= 5 {
                    Ok(TkKind::Hex8(crate::byteread::u32_be_at(data, 1)))
                } else {
                    Err(Error::ParseError(ParseError::UnexpectedEnd))
                }
            },
            6 => {
                if data.len() >= 5 {
                    Ok(TkKind::F32(crate::byteread::u32_be_at(data, 1)))
                } else {
                    Err(Error::ParseError(ParseError::UnexpectedEnd))
                }
            },
            7 => {
                match find_nul(data, 1) {
                    Some(j) => {
                        proof {
                            lemma_find_nul_some(data@.skip(1), j - 1);
                        }
                        Ok(TkKind::Str(vstd::slice::slice_subrange(data, 1, j)))
                    },
                    None => {
                        proof {
                            lemma_find_nul_none(data@.skip(1));
                        }
                        Err(Error::ParseError(ParseError::UnexpectedEnd))
                    },
                }
            },
            _ => Err(Error::InvalidTokenKind),
        }
    }

    /// True of the five integer kinds that `extract_int` accepts.
    pub open spec fn is_int_kind(self) -> bool {
        match self {
            TkKind::I8(_) => true,
            TkKind::U8(_) => true,
            TkKind::I16(_) => true,
            TkKind::U16(_) => true,
            TkKind::U32(_) => true,
            _ => false,
        }
    }

    /// The integer an integer-kind token widens to. Signed kinds are
    /// sign-extended, exactly as an `as usize` cast does it.
    pub open spec fn spec_int(self) -> usize
        recommends
            self.is_int_kind(),
    {
        match self {
            TkKind::I8(v) => v as usize,
            TkKind::U8(v) => v as usize,
            TkKind::I16(v) => v as usize,
            TkKind::U16(v) => v as usize,
            TkKind::U32(v) => v as usize,
            _ => arbitrary(),
        }
    }

    pub open spec fn is_float_kind(self) -> bool {
        self matches TkKind::F32(_)
    }

    /// Bit pattern of a float-kind token.
    pub open spec fn spec_float_bits(self) -> u32
        recommends
            self.is_float_kind(),
    {
        match self {
            TkKind::F32(v) => v,
            _ => arbitrary(),
        }
    }

    pub open spec fn is_hex_kind(self) -> bool {
        self matches TkKind::Hex8(_)
    }

    /// Value of a hex-kind token, widened to `usize`.
    pub open spec fn spec_hex(self) -> usize
        recommends
            self.is_hex_kind(),
    {
        match self {
            TkKind::Hex8(v) => v as usize,
            _ => arbitrary(),
        }
    }

    pub open spec fn is_str_kind(self) -> bool {
        self matches TkKind::Str(_)
    }

    /// The borrowed payload of a string-kind token.
    pub open spec fn spec_str_ref(self) -> &'a [u8]
        recommends
            self.is_str_kind(),
    {
        match self {
            TkKind::Str(s) => s,
            _ => arbitrary(),
        }
    }

    /// Payload bytes of a string-kind token.
    pub open spec fn spec_str(self) -> Seq<u8>
        recommends
            self.is_str_kind(),
    {
        self.spec_str_ref()@
    }

    /// Widens any integer-kind token to one common numeric type; every other
    /// kind is a kind mismatch. There is no coercion from floats or strings.
    pub fn extract_int(&self) -> (r: Result<usize, Error>)
        ensures
            self.is_int_kind() ==> r == Ok::<usize, Error>(self.spec_int()),
            !self.is_int_kind() ==> r == Err::<usize, Error>(Error::InvalidTokenKind),
    {
        match *self {
            TkKind::I8(val) => Ok(val as usize),
            TkKind::U8(val) => Ok(val as usize),
            TkKind::I16(val) => Ok(val as usize),
            TkKind::U16(val) => Ok(val as usize),
            TkKind::U32(val) => Ok(val as usize),
            _ => Err(Error::InvalidTokenKind),
        }
    }

    /// The bit pattern of a float-kind token; any other kind is a mismatch.
    pub fn extract_float(&self) -> (r: Result<u32, Error>)
        ensures
            self.is_float_kind() ==> r == Ok::<u32, Error>(self.spec_float_bits()),
            !self.is_float_kind() ==> r == Err::<u32, Error>(Error::InvalidTokenKind),
    {
        match *self {
            TkKind::F32(val) => Ok(val),
            _ => Err(Error::InvalidTokenKind),
        }
    }

    /// The payload of a string-kind token; any other kind is a mismatch.
    pub fn extract_str(&self) -> (r: Result<&'a [u8], Error>)
        ensures
            self.is_str_kind() ==> r == Ok::<&'a [u8], Error>(self.spec_str_ref()),
            !self.is_str_kind() ==> r == Err::<&'a [u8], Error>(Error::InvalidTokenKind),
    {
        match *self {
            TkKind::Str(val) => Ok(val),
            _ => Err(Error::InvalidTokenKind),
        }
    }

    /// The value of a hex-kind token, kept apart from plain integers: call
    /// sites use it for identifiers and checksums, not counts.
    pub fn extract_hex8(&self) -> (r: Result<usize, Error>)
        ensures
            self.is_hex_kind() ==> r == Ok::<usize, Error>(self.spec_hex()),
            !self.is_hex_kind() ==> r == Err::<usize, Error>(Error::InvalidTokenKind),
    {
        match *self {
            TkKind::Hex8(val) => Ok(val as usize),
            _ => Err(Error::InvalidTokenKind),
        }
    }

    /// On-disk width of this token in bytes, as `TokenValue::spec_len`.
    pub fn len(&self) -> (r: usize)
        requires
            self@.spec_len() <= usize::MAX,
        ensures
            r == self@.spec_len(),
    {
        match *self {
            TkKind::U8(_) | TkKind::I8(_) => 2,
            TkKind::I16(_) | TkKind::U16(_) => 3,
            TkKind::U32(_) | TkKind::Hex8(_) | TkKind::F32(_) => 5,
            TkKind::Str(s) => s.len() + 2,
        }
    }

    /// Test-only encoder: the bytes that decode back to this token.
    pub fn encode(&self) -> (r: Vec<u8>)
        ensures
            r@ == self@.spec_encode(),
    {
        let mut out: Vec<u8> = Vec::new();
        match *self {
            TkKind::I8(x) => {
                out.push(0);
                out.push(x as u8);
            },
            TkKind::U8(x) => {
                out.push(1);
                out.push(x);
            },
            TkKind::I16(x) => {
                out.push(2);
                push_be16(&mut out, x as u16);
            },
            TkKind::U16(x) => {
                out.push(3);
                push_be16(&mut out, x);
            },
            TkKind::U32(x) => {
                out.push(4);
                push_be32(&mut out, x);
            },
            TkKind::Hex8(x) => {
                out.push(5);
                push_be32(&mut out, x);
            },
            TkKind::F32(x) => {
                out.push(6);
                push_be32(&mut out, x);
            },
            TkKind::Str(s) => {
                out.push(7);
                let mut i: usize = 0;
                while i < s.len()
                    invariant
                        i <= s@.len(),
                        out@ == seq![7u8] + s@.take(i as int),
                    decreases s@.len() - i,
                {
                    out.push(*vstd::slice::slice_index_get(s, i));
                    i = i + 1;
                }
                assert(s@.take(s@.len() as int) =~= s@);
                out.push(0);
            },
        }
        proof {
            assert(out@ =~= self@.spec_encode());
        }
        out
    }
}

fn push_be16(out: &mut Vec<u8>, x: u16)
    ensures
        final(out)@ == old(out)@ + spec_be16_bytes(x),
{
    out.push((x / 256) as u8);
    out.push((x % 256) as u8);
    proof {
        assert(out@ =~= old(out)@ + spec_be16_bytes(x));
    }
}

fn push_be32(out: &mut Vec<u8>, x: u32)
    ensures
        final(out)@ == old(out)@ + spec_be32_bytes(x),
{
    out.push((x / 0x1000000) as u8);
    out.push((x / 0x10000 % 0x100) as u8);
    out.push((x / 0x100 % 0x100) as u8);
    out.push((x % 0x100) as u8);
    proof {
        assert(out@ =~= old(out)@ + spec_be32_bytes(x));
    }
}

/// The two big-endian bytes of `x`.
pub open spec fn spec_be16_bytes(x: u16) -> Seq<u8> {
    seq![(x / 256) as u8, (x % 256) as u8]
}

/// The four big-endian bytes of `x`.
pub open spec fn spec_be32_bytes(x: u32) -> Seq<u8> {
    seq![
        (x / 0x1000000) as u8,
        (x / 0x10000 % 0x100) as u8,
        (x / 0x100 % 0x100) as u8,
        (x % 0x100) as u8,
    ]
}

proof fn lemma_be16_bytes_value(x: u16)
    ensures
        spec_be16(spec_be16_bytes(x)[0], spec_be16_bytes(x)[1]) == x,
{
    vstd::arithmetic::div_mod::lemma_fundamental_div_mod(x as int, 256);
}

proof fn lemma_be32_bytes_value(x: u32)
    ensures
        spec_be32(
            spec_be32_bytes(x)[0],
            spec_be32_bytes(x)[1],
            spec_be32_bytes(x)[2],
            spec_be32_bytes(x)[3],
        ) == x,
{
    let q1 = x as int / 0x100;
    let q2 = x as int / 0x10000;
    let q3 = x as int / 0x1000000;
    vstd::arithmetic::div_mod::lemma_fundamental_div_mod(x as int, 0x100);
    vstd::arithmetic::div_mod::lemma_div_denominator(x as int, 0x100, 0x100);
    vstd::arithmetic::div_mod::lemma_fundamental_div_mod(q1, 0x100);
    vstd::arithmetic::div_mod::lemma_div_denominator(x as int, 0x10000, 0x100);
    vstd::arithmetic::div_mod::lemma_fundamental_div_mod(q2, 0x100);
}

impl TokenValue {
    /// The byte encoding this token value denotes: one tag byte, then the
    /// payload (strings end with their NUL).
    pub open spec fn spec_encode(self) -> Seq<u8> {
        match self {
            TokenValue::I8(x) => seq![0u8, x as u8],
            TokenValue::U8(x) => seq![1u8, x],
            TokenValue::I16(x) => seq![2u8] + spec_be16_bytes(x as u16),
            TokenValue::U16(x) => seq![3u8] + spec_be16_bytes(x),
            TokenValue::U32(x) => seq![4u8] + spec_be32_bytes(x),
            TokenValue::Hex8(x) => seq![5u8] + spec_be32_bytes(x),
            TokenValue::F32(x) => seq![6u8] + spec_be32_bytes(x),
            TokenValue::Str(s) => seq![7u8] + s + seq![0u8],
        }
    }

    /// A token value can stand in a stream iff a string payload carries no
    /// NUL of its own (the NUL is the terminator, nothing else).
    pub open spec fn encodable(self) -> bool {
        match self {
            TokenValue::Str(s) => forall|k: int| 0 <= k < s.len() ==> s[k] != 0,
            _ => true,
        }
    }
}

/// Round trip: decoding the encoding of any encodable token value yields
/// exactly that value and consumes exactly its width, whatever follows it.
pub proof fn lemma_token_round_trip(v: TokenValue, rest: Seq<u8>)
    requires
        v.encodable(),
    ensures
        spec_token(v.spec_encode() + rest) == Ok::<(TokenValue, int), Error>((v, v.spec_len())),
{
    let d = v.spec_encode() + rest;
    match v {
        TokenValue::I8(x) => {
            assert((x as u8) as i8 == x) by (bit_vector);
        },
        TokenValue::U8(x) => {
        },
        TokenValue::I16(x) => {
            lemma_be16_bytes_value(x as u16);
            assert(d[1] == spec_be16_bytes(x as u16)[0]);
            assert(d[2] == spec_be16_bytes(x as u16)[1]);
            assert((x as u16) as i16 == x) by (bit_vector);
        },
        TokenValue::U16(x) => {
            lemma_be16_bytes_value(x);
            assert(d[1] == spec_be16_bytes(x)[0]);
            assert(d[2] == spec_be16_bytes(x)[1]);
        },
        TokenValue::U32(x) => {
            lemma_be32_bytes_value(x);
            assert(d[1] == spec_be32_bytes(x)[0]);
            assert(d[2] == spec_be32_bytes(x)[1]);
            assert(d[3] == spec_be32_bytes(x)[2]);
            assert(d[4] == spec_be32_bytes(x)[3]);
        },
        TokenValue::Hex8(x) => {
            lemma_be32_bytes_value(x);
            assert(d[1] == spec_be32_bytes(x)[0]);
            assert(d[2] == spec_be32_bytes(x)[1]);
            assert(d[3] == spec_be32_bytes(x)[2]);
            assert(d[4] == spec_be32_bytes(x)[3]);
        },
        TokenValue::F32(x) => {
            lemma_be32_bytes_value(x);
            assert(d[1] == spec_be32_bytes(x)[0]);
            assert(d[2] == spec_be32_bytes(x)[1]);
            assert(d[3] == spec_be32_bytes(x)[2]);
            assert(d[4] == spec_be32_bytes(x)[3]);
        },
        TokenValue::Str(s) => {
            let tail = d.skip(1);
            assert(tail[s.len() as int] == 0);
            assert forall|k: int| 0 <= k < s.len() implies tail[k] != 0 by {
                assert(tail[k] == s[k]);
            }
            lemma_find_nul_some(tail, s.len() as int);
            assert(d.subrange(1, 1 + s.len() as int) =~= s);
        },
    }
}

/// Truncation safety at the token level: any strict prefix of an encodable
/// token's encoding fails with `UnexpectedEnd`, never anything else.
pub proof fn lemma_token_truncation(v: TokenValue, k: int)
    requires
        v.encodable(),
        0 <= k < v.spec_len(),
    ensures
        spec_token(v.spec_encode().take(k)) == Err::<(TokenValue, int), Error>(
            Error::ParseError(ParseError::UnexpectedEnd),
        ),
{
    let d = v.spec_encode().take(k);
    if k > 0 {
        match v {
            TokenValue::Str(s) => {
                let tail = d.skip(1);
                assert forall|j: int| 0 <= j < tail.len() implies tail[j] != 0 by {
                    assert(tail[j] == s[j]);
                }
                lemma_find_nul_none(tail);
            },
            _ => {
            },
        }
    }
}

/// String safety: a string-tagged token whose payload never reaches a NUL
/// within the buffer is an error, not an unbounded scan.
pub proof fn lemma_string_needs_nul(d: Seq<u8>)
    requires
        d.len() >= 1,
        d[0] == 7,
        forall|k: int| 1 <= k < d.len() ==> d[k] != 0,
    ensures
        spec_token(d) == Err::<(TokenValue, int), Error>(
            Error::ParseError(ParseError::UnexpectedEnd),
        ),
{
    let tail = d.skip(1);
    assert forall|j: int| 0 <= j < tail.len() implies tail[j] != 0 by {
        assert(tail[j] == d[j + 1]);
    }
    lemma_find_nul_none(tail);
}

/// The token views of a token slice.
pub open spec fn views_of(s: Seq<TkKind>) -> Seq<TokenValue> {
    s.map_values(|t: TkKind| t@)
}

/// A validated level buffer: the magic prefix and the trailing sentinel have
/// been checked, and the tokenizer can be run over the whole buffer.
pub struct FetmReader<'a> {
    input: &'a [u8],
}

impl<'a> View for FetmReader<'a> {
    type V = Seq<u8>;

    closed spec fn view(&self) -> Seq<u8> {
        self.input@
    }
}

/// The three magic bytes every level buffer starts with.
pub open spec fn spec_magic_ok(d: Seq<u8>) -> bool {
    d.len() >= 3 && d[0] == 0x01 && d[1] == 0x7C && d[2] == 0x07
}

/// The trailing `"end\0"` sentinel (the payload of the final string token).
pub open spec fn spec_sentinel_ok(d: Seq<u8>) -> bool {
    d.len() >= 4 && d[d.len() - 4] == 0x65 && d[d.len() - 3] == 0x6E && d[d.len() - 2] == 0x64
        && d[d.len() - 1] == 0x00
}

impl<'a> FetmReader<'a> {
    /// Validates the whole-buffer form: three magic bytes up front and the
    /// `"end\0"` sentinel at the back. Succeeds on exactly those buffers;
    /// a short buffer or a missing sentinel is `UnexpectedEnd`, a wrong
    /// prefix is `BadMagic`.
    pub fn new(input: &'a [u8]) -> (r: Result<Self, ParseError>)
        ensures
            r is Ok <==> spec_magic_ok(input@) && spec_sentinel_ok(input@),
            r matches Ok(reader) ==> reader@ == input@,
            input@.len() < 3 ==> r == Err::<Self, ParseError>(ParseError::UnexpectedEnd),
            input@.len() >= 3 && !spec_magic_ok(input@) ==> r == Err::<Self, ParseError>(
                ParseError::BadMagic,
            ),
            spec_magic_ok(input@) && !spec_sentinel_ok(input@) ==> r == Err::<Self, ParseError>(
                ParseError::UnexpectedEnd,
            ),
    {
        let n: usize = input.len();
        if n < 3 {
            return Err(ParseError::UnexpectedEnd);
        }
        if !(*vstd::slice::slice_index_get(input, 0) == 0x01
            && *vstd::slice::slice_index_get(input, 1) == 0x7C
            && *vstd::slice::slice_index_get(input, 2) == 0x07) {
            return Err(ParseError::BadMagic);
        }
        if n < 7 {
            return Err(ParseError::UnexpectedEnd);
        }
        if *vstd::slice::slice_index_get(input, n - 4) == 0x65
            && *vstd::slice::slice_index_get(input, n - 3) == 0x6E
            && *vstd::slice::slice_index_get(input, n - 2) == 0x64
            && *vstd::slice::slice_index_get(input, n - 1) == 0x00 {
            Ok(Self { input })
        } else {
            Err(ParseError::UnexpectedEnd)
        }
    }

    /// Materializes the whole buffer as a token sequence, exactly as
    /// `spec_tokenize` describes it: tokens strictly left to right, ending
    /// at the end of the buffer, or the first token-level failure.
    pub fn tokens(&self) -> (r: Result<Vec<TkKind<'a>>, Error>)
        ensures
            r matches Ok(v) ==> spec_tokenize(self@) == Ok::<Seq<TokenValue>, Error>(
                views_of(v@),
            ),
            r matches Err(e) ==> spec_tokenize(self@) == Err::<Seq<TokenValue>, Error>(e),
    {
        let d = self.input;
        let ghost dv = d@;
        let n: usize = d.len();
        let mut pos: usize = 0;
        let mut out: Vec<TkKind<'a>> = Vec::new();
        proof {
            assert(dv.skip(0) =~= dv);
        }
        while pos < n
            invariant
                pos <= n,
                n == dv.len(),
                d@ == dv,
                self@ == dv,
                spec_tokenize(dv.skip(pos as int)) matches Ok(rest) ==> spec_tokenize(dv)
                    == Ok::<Seq<TokenValue>, Error>(views_of(out@) + rest),
                spec_tokenize(dv.skip(pos as int)) matches Err(e) ==> spec_tokenize(dv)
                    == Err::<Seq<TokenValue>, Error>(e),
            decreases n - pos,
        {
            let sub = vstd::slice::slice_subrange(d, pos, n);
            proof {
                assert(sub@ =~= dv.skip(pos as int));
                lemma_token_width(sub@);
            }
            let t = match TkKind::from_bytes(sub) {
                Ok(t) => t,
                Err(e) => {
                    proof {
                        assert(spec_token(dv.skip(pos as int)) == Err::<(TokenValue, int), Error>(
                            e,
                        ));
                        assert(spec_tokenize(dv.skip(pos as int)) == Err::<
                            Seq<TokenValue>,
                            Error,
                        >(e));
                    }
                    return Err(e);
                },
            };
            let w = t.len();
            proof {
                assert(dv.skip(pos as int).skip(w as int) =~= dv.skip(pos as int + w));
                assert(views_of(out@.push(t)) =~= views_of(out@) + seq![t@]);
                let tail = spec_tokenize(dv.skip(pos as int + w));
                if tail is Ok {
                    assert(views_of(out@) + (seq![t@] + tail.unwrap()) =~= (views_of(out@)
                        + seq![t@]) + tail.unwrap());
                }
            }
            out.push(t);
            pos = pos + w;
        }
        proof {
            assert(dv.skip(pos as int) =~= Seq::<u8>::empty());
            assert(views_of(out@) + Seq::<TokenValue>::empty() =~= views_of(out@));
        }
        Ok(out)
    }
}

/// The fixed 62-token prefix of a `World Sector` class payload: texture
/// reference, blend values and music-excitement fields.
#[derive(Debug, PartialEq)]
pub struct NormalSector {
    pub texture_resource_crc: usize,
    pub texture_resource_deploy_location: usize,
    pub blend_value_0: usize,
    pub blend_value_1: u32,
    pub blend_value_2: u32,
    pub blend_value_3: u32,
    pub blend_value_4: u32,
    pub blend_value_5: u32,
    pub blend_value_6: usize,
    pub blend_value_7: u32,
    pub blend_value_8: u32,
    pub blend_value_9: u32,
    pub blend_value_10: u32,
    pub blend_value_11: u32,
    pub blend_value_12: u32,
    pub blend_value_13: u32,
    pub blend_value_14: u32,
    pub blend_value_15: u32,
    pub enable_excitement: bool,
    pub blend_value_16: u32,
    pub blend_value_17: u32,
    pub blend_value_18: u32,
    pub blend_value_19: u32,
    pub blend_value_20: u32,
    pub blend_value_21: u32,
    pub blend_value_22: u32,
    pub blend_value_23: u32,
    pub blend_value_24: u32,
    pub blend_value_25: u32,
    pub blend_value_26: u32,
    pub music_excite_1: usize,
    pub music_excite_2: usize,
    pub blend_value_27: usize,
    pub blend_value_28: usize,
    pub blend_value_29: usize,
    pub blend_value_30: usize,
    pub blend_value_31: usize,
    pub blend_value_32: usize,
    pub blend_value_33: usize,
    pub blend_value_34: usize,
    pub blend_value_35: usize,
    pub blend_value_36: usize,
    pub unknown_0: usize,
    pub blend_value_37: usize,
    pub blend_value_38: usize,
    pub blend_value_39: usize,
    pub blend_value_40: usize,
    pub unknown_1: usize,
    pub blend_value_41: usize,
    pub blend_value_42: usize,
    pub blend_value_43: usize,
    pub blend_value_44: usize,
    pub unknown_2: usize,
    pub blend_value_45: usize,
    pub blend_value_46: usize,
    pub blend_value_47: usize,
    pub blend_value_48: usize,
    pub unknown_3: usize,
    pub blend_value_49: usize,
    pub blend_value_50: usize,
    pub blend_value_51: usize,
    pub blend_value_52: usize,
}

impl NormalSector {
    /// Number of tokens this record consumes.
    pub const LENGTH: usize = 62;

    /// The record fits and every token it reads has the kind it expects.
    pub open spec fn spec_wf(s: Seq<TkKind>) -> bool {
        &&& s.len() >= 62
        &&& s[0].is_hex_kind()
        &&& s[1].is_int_kind()
        &&& s[2].is_int_kind()
        &&& s[3].is_float_kind()
        &&& s[4].is_float_kind()
        &&& s[5].is_float_kind()
        &&& s[6].is_float_kind()
        &&& s[7].is_float_kind()
        &&& s[8].is_int_kind()
        &&& s[9].is_float_kind()
        &&& s[10].is_float_kind()
        &&& s[11].is_float_kind()
        &&& s[12].is_float_kind()
        &&& s[13].is_float_kind()
        &&& s[14].is_float_kind()
        &&& s[15].is_float_kind()
        &&& s[16].is_float_kind()
        &&& s[17].is_float_kind()
        &&& s[18].is_int_kind()
        &&& s[19].is_float_kind()
        &&& s[20].is_float_kind()
        &&& s[21].is_float_kind()
        &&& s[22].is_float_kind()
        &&& s[23].is_float_kind()
        &&& s[24].is_float_kind()
        &&& s[25].is_float_kind()
        &&& s[26].is_float_kind()
        &&& s[27].is_float_kind()
        &&& s[28].is_float_kind()
        &&& s[29].is_float_kind()
        &&& s[30].is_int_kind()
        &&& s[31].is_int_kind()
        &&& s[32].is_int_kind()
        &&& s[33].is_int_kind()
        &&& s[34].is_int_kind()
        &&& s[35].is_int_kind()
        &&& s[36].is_int_kind()
        &&& s[37].is_int_kind()
        &&& s[38].is_int_kind()
        &&& s[39].is_int_kind()
        &&& s[40].is_int_kind()
        &&& s[41].is_int_kind()
        &&& s[42].is_int_kind()
        &&& s[43].is_int_kind()
        &&& s[44].is_int_kind()
        &&& s[45].is_int_kind()
        &&& s[46].is_int_kind()
        &&& s[47].is_int_kind()
        &&& s[48].is_int_kind()
        &&& s[49].is_int_kind()
        &&& s[50].is_int_kind()
        &&& s[51].is_int_kind()
        &&& s[52].is_int_kind()
        &&& s[53].is_int_kind()
        &&& s[54].is_int_kind()
        &&& s[55].is_int_kind()
        &&& s[56].is_int_kind()
        &&& s[57].is_int_kind()
        &&& s[58].is_int_kind()
        &&& s[59].is_int_kind()
        &&& s[60].is_int_kind()
        &&& s[61].is_int_kind()
    }

    /// Kind correctness of however much of the record is present.
    pub open spec fn spec_prefix_ok(s: Seq<TkKind>) -> bool {
        &&& (0 < s.len() ==> s[0].is_hex_kind())
        &&& (1 < s.len() ==> s[1].is_int_kind())
        &&& (2 < s.len() ==> s[2].is_int_kind())
        &&& (3 < s.len() ==> s[3].is_float_kind())
        &&& (4 < s.len() ==> s[4].is_float_kind())
        &&& (5 < s.len() ==> s[5].is_float_kind())
        &&& (6 < s.len() ==> s[6].is_float_kind())
        &&& (7 < s.len() ==> s[7].is_float_kind())
        &&& (8 < s.len() ==> s[8].is_int_kind())
        &&& (9 < s.len() ==> s[9].is_float_kind())
        &&& (10 < s.len() ==> s[10].is_float_kind())
        &&& (11 < s.len() ==> s[11].is_float_kind())
        &&& (12 < s.len() ==> s[12].is_float_kind())
        &&& (13 < s.len() ==> s[13].is_float_kind())
        &&& (14 < s.len() ==> s[14].is_float_kind())
        &&& (15 < s.len() ==> s[15].is_float_kind())
        &&& (16 < s.len() ==> s[16].is_float_kind())
        &&& (17 < s.len() ==> s[17].is_float_kind())
        &&& (18 < s.len() ==> s[18].is_int_kind())
        &&& (19 < s.len() ==> s[19].is_float_kind())
        &&& (20 < s.len() ==> s[20].is_float_kind())
        &&& (21 < s.len() ==> s[21].is_float_kind())
        &&& (22 < s.len() ==> s[22].is_float_kind())
        &&& (23 < s.len() ==> s[23].is_float_kind())
        &&& (24 < s.len() ==> s[24].is_float_kind())
        &&& (25 < s.len() ==> s[25].is_float_kind())
        &&& (26 < s.len() ==> s[26].is_float_kind())
        &&& (27 < s.len() ==> s[27].is_float_kind())
        &&& (28 < s.len() ==> s[28].is_float_kind())
        &&& (29 < s.len() ==> s[29].is_float_kind())
        &&& (30 < s.len() ==> s[30].is_int_kind())
        &&& (31 < s.len() ==> s[31].is_int_kind())
        &&& (32 < s.len() ==> s[32].is_int_kind())
        &&& (33 < s.len() ==> s[33].is_int_kind())
        &&& (34 < s.len() ==> s[34].is_int_kind())
        &&& (35 < s.len() ==> s[35].is_int_kind())
        &&& (36 < s.len() ==> s[36].is_int_kind())
        &&& (37 < s.len() ==> s[37].is_int_kind())
        &&& (38 < s.len() ==> s[38].is_int_kind())
        &&& (39 < s.len() ==> s[39].is_int_kind())
        &&& (40 < s.len() ==> s[40].is_int_kind())
        &&& (41 < s.len() ==> s[41].is_int_kind())
        &&& (42 < s.len() ==> s[42].is_int_kind())
        &&& (43 < s.len() ==> s[43].is_int_kind())
        &&& (44 < s.len() ==> s[44].is_int_kind())
        &&& (45 < s.len() ==> s[45].is_int_kind())
        &&& (46 < s.len() ==> s[46].is_int_kind())
        &&& (47 < s.len() ==> s[47].is_int_kind())
        &&& (48 < s.len() ==> s[48].is_int_kind())
        &&& (49 < s.len() ==> s[49].is_int_kind())
        &&& (50 < s.len() ==> s[50].is_int_kind())
        &&& (51 < s.len() ==> s[51].is_int_kind())
        &&& (52 < s.len() ==> s[52].is_int_kind())
        &&& (53 < s.len() ==> s[53].is_int_kind())
        &&& (54 < s.len() ==> s[54].is_int_kind())
        &&& (55 < s.len() ==> s[55].is_int_kind())
        &&& (56 < s.len() ==> s[56].is_int_kind())
        &&& (57 < s.len() ==> s[57].is_int_kind())
        &&& (58 < s.len() ==> s[58].is_int_kind())
        &&& (59 < s.len() ==> s[59].is_int_kind())
        &&& (60 < s.len() ==> s[60].is_int_kind())
        &&& (61 < s.len() ==> s[61].is_int_kind())
    }

    /// The decoded record.
    pub open spec fn spec_value(s: Seq<TkKind>) -> NormalSector
        recommends
            Self::spec_wf(s),
    {
        (NormalSector {
            texture_resource_crc: s[0].spec_hex(),
            texture_resource_deploy_location: s[1].spec_int(),
            blend_value_0: s[2].spec_int(),
            blend_value_1: s[3].spec_float_bits(),
            blend_value_2: s[4].spec_float_bits(),
            blend_value_3: s[5].spec_float_bits(),
            blend_value_4: s[6].spec_float_bits(),
            blend_value_5: s[7].spec_float_bits(),
            blend_value_6: s[8].spec_int(),
            blend_value_7: s[9].spec_float_bits(),
            blend_value_8: s[10].spec_float_bits(),
            blend_value_9: s[11].spec_float_bits(),
            blend_value_10: s[12].spec_float_bits(),
            blend_value_11: s[13].spec_float_bits(),
            blend_value_12: s[14].spec_float_bits(),
            blend_value_13: s[15].spec_float_bits(),
            blend_value_14: s[16].spec_float_bits(),
            blend_value_15: s[17].spec_float_bits(),
            enable_excitement: s[18].spec_int() != 0,
            blend_value_16: s[19].spec_float_bits(),
            blend_value_17: s[20].spec_float_bits(),
            blend_value_18: s[21].spec_float_bits(),
            blend_value_19: s[22].spec_float_bits(),
            blend_value_20: s[23].spec_float_bits(),
            blend_value_21: s[24].spec_float_bits(),
            blend_value_22: s[25].spec_float_bits(),
            blend_value_23: s[26].spec_float_bits(),
            blend_value_24: s[27].spec_float_bits(),
            blend_value_25: s[28].spec_float_bits(),
            blend_value_26: s[29].spec_float_bits(),
            music_excite_1: s[30].spec_int(),
            music_excite_2: s[31].spec_int(),
            blend_value_27: s[32].spec_int(),
            blend_value_28: s[33].spec_int(),
            blend_value_29: s[34].spec_int(),
            blend_value_30: s[35].spec_int(),
            blend_value_31: s[36].spec_int(),
            blend_value_32: s[37].spec_int(),
            blend_value_33: s[38].spec_int(),
            blend_value_34: s[39].spec_int(),
            blend_value_35: s[40].spec_int(),
            blend_value_36: s[41].spec_int(),
            unknown_0: s[42].spec_int(),
            blend_value_37: s[43].spec_int(),
            blend_value_38: s[44].spec_int(),
            blend_value_39: s[45].spec_int(),
            blend_value_40: s[46].spec_int(),
            unknown_1: s[47].spec_int(),
            blend_value_41: s[48].spec_int(),
            blend_value_42: s[49].spec_int(),
            blend_value_43: s[50].spec_int(),
            blend_value_44: s[51].spec_int(),
            unknown_2: s[52].spec_int(),
            blend_value_45: s[53].spec_int(),
            blend_value_46: s[54].spec_int(),
            blend_value_47: s[55].spec_int(),
            blend_value_48: s[56].spec_int(),
            unknown_3: s[57].spec_int(),
            blend_value_49: s[58].spec_int(),
            blend_value_50: s[59].spec_int(),
            blend_value_51: s[60].spec_int(),
            blend_value_52: s[61].spec_int(),
        })
    }

    /// What decoding yields on any token slice: the first failing read
    /// in index order classifies the error.
    pub open spec fn spec_decode(s: Seq<TkKind>) -> Result<NormalSector, Error> {
        if !((0 < s.len() ==> s[0].is_hex_kind()) && (1 < s.len() ==> s[1].is_int_kind()) && (2 < s.len() ==> s[2].is_int_kind()) && (3 < s.len() ==> s[3].is_float_kind()) && (4 < s.len() ==> s[4].is_float_kind()) && (5 < s.len() ==> s[5].is_float_kind()) && (6 < s.len() ==> s[6].is_float_kind()) && (7 < s.len() ==> s[7].is_float_kind()) && (8 < s.len() ==> s[8].is_int_kind()) && (9 < s.len() ==> s[9].is_float_kind()) && (10 < s.len() ==> s[10].is_float_kind()) && (11 < s.len() ==> s[11].is_float_kind()) && (12 < s.len() ==> s[12].is_float_kind()) && (13 < s.len() ==> s[13].is_float_kind()) && (14 < s.len() ==> s[14].is_float_kind()) && (15 < s.len() ==> s[15].is_float_kind()) && (16 < s.len() ==> s[16].is_float_kind()) && (17 < s.len() ==> s[17].is_float_kind()) && (18 < s.len() ==> s[18].is_int_kind()) && (19 < s.len() ==> s[19].is_float_kind()) && (20 < s.len() ==> s[20].is_float_kind()) && (21 < s.len() ==> s[21].is_float_kind()) && (22 < s.len() ==> s[22].is_float_kind()) && (23 < s.len() ==> s[23].is_float_kind()) && (24 < s.len() ==> s[24].is_float_kind()) && (25 < s.len() ==> s[25].is_float_kind()) && (26 < s.len() ==> s[26].is_float_kind()) && (27 < s.len() ==> s[27].is_float_kind()) && (28 < s.len() ==> s[28].is_float_kind()) && (29 < s.len() ==> s[29].is_float_kind()) && (30 < s.len() ==> s[30].is_int_kind()) && (31 < s.len() ==> s[31].is_int_kind()) && (32 < s.len() ==> s[32].is_int_kind()) && (33 < s.len() ==> s[33].is_int_kind()) && (34 < s.len() ==> s[34].is_int_kind()) && (35 < s.len() ==> s[35].is_int_kind()) && (36 < s.len() ==> s[36].is_int_kind()) && (37 < s.len() ==> s[37].is_int_kind()) && (38 < s.len() ==> s[38].is_int_kind()) && (39 < s.len() ==> s[39].is_int_kind()) && (40 < s.len() ==> s[40].is_int_kind()) && (41 < s.len() ==> s[41].is_int_kind()) && (42 < s.len() ==> s[42].is_int_kind()) && (43 < s.len() ==> s[43].is_int_kind()) && (44 < s.len() ==> s[44].is_int_kind()) && (45 < s.len() ==> s[45].is_int_kind()) && (46 < s.len() ==> s[46].is_int_kind()) && (47 < s.len() ==> s[47].is_int_kind()) && (48 < s.len() ==> s[48].is_int_kind()) && (49 < s.len() ==> s[49].is_int_kind()) && (50 < s.len() ==> s[50].is_int_kind()) && (51 < s.len() ==> s[51].is_int_kind()) && (52 < s.len() ==> s[52].is_int_kind()) && (53 < s.len() ==> s[53].is_int_kind()) && (54 < s.len() ==> s[54].is_int_kind()) && (55 < s.len() ==> s[55].is_int_kind()) && (56 < s.len() ==> s[56].is_int_kind()) && (57 < s.len() ==> s[57].is_int_kind()) && (58 < s.len() ==> s[58].is_int_kind()) && (59 < s.len() ==> s[59].is_int_kind()) && (60 < s.len() ==> s[60].is_int_kind()) && (61 < s.len() ==> s[61].is_int_kind())) {
            Err(Error::InvalidTokenKind)
        } else if !(s.len() >= 62 && s[0].is_hex_kind() && s[1].is_int_kind() && s[2].is_int_kind() && s[3].is_float_kind() && s[4].is_float_kind() && s[5].is_float_kind() && s[6].is_float_kind() && s[7].is_float_kind() && s[8].is_int_kind() && s[9].is_float_kind() && s[10].is_float_kind() && s[11].is_float_kind() && s[12].is_float_kind() && s[13].is_float_kind() && s[14].is_float_kind() && s[15].is_float_kind() && s[16].is_float_kind() && s[17].is_float_kind() && s[18].is_int_kind() && s[19].is_float_kind() && s[20].is_float_kind() && s[21].is_float_kind() && s[22].is_float_kind() && s[23].is_float_kind() && s[24].is_float_kind() && s[25].is_float_kind() && s[26].is_float_kind() && s[27].is_float_kind() && s[28].is_float_kind() && s[29].is_float_kind() && s[30].is_int_kind() && s[31].is_int_kind() && s[32].is_int_kind() && s[33].is_int_kind() && s[34].is_int_kind() && s[35].is_int_kind() && s[36].is_int_kind() && s[37].is_int_kind() && s[38].is_int_kind() && s[39].is_int_kind() && s[40].is_int_kind() && s[41].is_int_kind() && s[42].is_int_kind() && s[43].is_int_kind() && s[44].is_int_kind() && s[45].is_int_kind() && s[46].is_int_kind() && s[47].is_int_kind() && s[48].is_int_kind() && s[49].is_int_kind() && s[50].is_int_kind() && s[51].is_int_kind() && s[52].is_int_kind() && s[53].is_int_kind() && s[54].is_int_kind() && s[55].is_int_kind() && s[56].is_int_kind() && s[57].is_int_kind() && s[58].is_int_kind() && s[59].is_int_kind() && s[60].is_int_kind() && s[61].is_int_kind()) {
            Err(Error::ParseError(ParseError::UnexpectedEnd))
        } else {
            Ok(Self::spec_value(s))
        }
    }

    /// Decodes the record from the front of `tokens`, reading each field
    /// at its fixed position; exactly `spec_decode` of the tokens.
    pub fn from_tokens(tokens: &[TkKind]) -> (r: Result<Self, Error>)
        ensures
            r == Self::spec_decode(tokens@),
    {
        let texture_resource_crc = read_hex(tokens, 0)?;
        let texture_resource_deploy_location = read_int(tokens, 1)?;
        let blend_value_0 = read_int(tokens, 2)?;
        let blend_value_1 = read_float(tokens, 3)?;
        let blend_value_2 = read_float(tokens, 4)?;
        let blend_value_3 = read_float(tokens, 5)?;
        let blend_value_4 = read_float(tokens, 6)?;
        let blend_value_5 = read_float(tokens, 7)?;
        let blend_value_6 = read_int(tokens, 8)?;
        let blend_value_7 = read_float(tokens, 9)?;
        let blend_value_8 = read_float(tokens, 10)?;
        let blend_value_9 = read_float(tokens, 11)?;
        let blend_value_10 = read_float(tokens, 12)?;
        let blend_value_11 = read_float(tokens, 13)?;
        let blend_value_12 = read_float(tokens, 14)?;
        let blend_value_13 = read_float(tokens, 15)?;
        let blend_value_14 = read_float(tokens, 16)?;
        let blend_value_15 = read_float(tokens, 17)?;
        let enable_excitement = read_int(tokens, 18)? != 0;
        let blend_value_16 = read_float(tokens, 19)?;
        let blend_value_17 = read_float(tokens, 20)?;
        let blend_value_18 = read_float(tokens, 21)?;
        let blend_value_19 = read_float(tokens, 22)?;
        let blend_value_20 = read_float(tokens, 23)?;
        let blend_value_21 = read_float(tokens, 24)?;
        let blend_value_22 = read_float(tokens, 25)?;
        let blend_value_23 = read_float(tokens, 26)?;
        let blend_value_24 = read_float(tokens, 27)?;
        let blend_value_25 = read_float(tokens, 28)?;
        let blend_value_26 = read_float(tokens, 29)?;
        let music_excite_1 = read_int(tokens, 30)?;
        let music_excite_2 = read_int(tokens, 31)?;
        let blend_value_27 = read_int(tokens, 32)?;
        let blend_value_28 = read_int(tokens, 33)?;
        let blend_value_29 = read_int(tokens, 34)?;
        let blend_value_30 = read_int(tokens, 35)?;
        let blend_value_31 = read_int(tokens, 36)?;
        let blend_value_32 = read_int(tokens, 37)?;
        let blend_value_33 = read_int(tokens, 38)?;
        let blend_value_34 = read_int(tokens, 39)?;
        let blend_value_35 = read_int(tokens, 40)?;
        let blend_value_36 = read_int(tokens, 41)?;
        let unknown_0 = read_int(tokens, 42)?;
        let blend_value_37 = read_int(tokens, 43)?;
        let blend_value_38 = read_int(tokens, 44)?;
        let blend_value_39 = read_int(tokens, 45)?;
        let blend_value_40 = read_int(tokens, 46)?;
        let unknown_1 = read_int(tokens, 47)?;
        let blend_value_41 = read_int(tokens, 48)?;
        let blend_value_42 = read_int(tokens, 49)?;
        let blend_value_43 = read_int(tokens, 50)?;
        let blend_value_44 = read_int(tokens, 51)?;
        let unknown_2 = read_int(tokens, 52)?;
        let blend_value_45 = read_int(tokens, 53)?;
        let blend_value_46 = read_int(tokens, 54)?;
        let blend_value_47 = read_int(tokens, 55)?;
        let blend_value_48 = read_int(tokens, 56)?;
        let unknown_3 = read_int(tokens, 57)?;
        let blend_value_49 = read_int(tokens, 58)?;
        let blend_value_50 = read_int(tokens, 59)?;
        let blend_value_51 = read_int(tokens, 60)?;
        let blend_value_52 = read_int(tokens, 61)?;
        Ok(NormalSector {
            texture_resource_crc,
            texture_resource_deploy_location,
            blend_value_0,
            blend_value_1,
            blend_value_2,
            blend_value_3,
            blend_value_4,
            blend_value_5,
            blend_value_6,
            blend_value_7,
            blend_value_8,
            blend_value_9,
            blend_value_10,
            blend_value_11,
            blend_value_12,
            blend_value_13,
            blend_value_14,
            blend_value_15,
            enable_excitement,
            blend_value_16,
            blend_value_17,
            blend_value_18,
            blend_value_19,
            blend_value_20,
            blend_value_21,
            blend_value_22,
            blend_value_23,
            blend_value_24,
            blend_value_25,
            blend_value_26,
            music_excite_1,
            music_excite_2,
            blend_value_27,
            blend_value_28,
            blend_value_29,
            blend_value_30,
            blend_value_31,
            blend_value_32,
            blend_value_33,
            blend_value_34,
            blend_value_35,
            blend_value_36,
            unknown_0,
            blend_value_37,
            blend_value_38,
            blend_value_39,
            blend_value_40,
            unknown_1,
            blend_value_41,
            blend_value_42,
            blend_value_43,
            blend_value_44,
            unknown_2,
            blend_value_45,
            blend_value_46,
            blend_value_47,
            blend_value_48,
            unknown_3,
            blend_value_49,
            blend_value_50,
            blend_value_51,
            blend_value_52,
        })
    }
}

/// The record reads only its own span: decoding ignores everything past
/// the first `NormalSector::LENGTH` tokens.
pub proof fn lemma_normal_sector_prefix_stable(s: Seq<TkKind>, k: int)
    requires
        NormalSector::LENGTH <= k <= s.len(),
    ensures
        NormalSector::spec_decode(s.take(k)) == NormalSector::spec_decode(s),
{
    let t = s.take(k);
    assert(forall|i: int| 0 <= i < k ==> t[i] == s[i]);
    if NormalSector::spec_decode(s) is Ok {
        assert(NormalSector::spec_value(t) == NormalSector::spec_value(s));
    }
}

/// Truncation safety: a strict prefix of a decodable record fails with
/// `UnexpectedEnd`, never anything else.
pub proof fn lemma_normal_sector_truncation(s: Seq<TkKind>, k: int)
    requires
        NormalSector::spec_decode(s) is Ok,
        0 <= k < NormalSector::LENGTH,
    ensures
        NormalSector::spec_decode(s.take(k)) == Err::<NormalSector, Error>(
            Error::ParseError(ParseError::UnexpectedEnd),
        ),
{
    let t = s.take(k);
    assert(forall|i: int| 0 <= i < k ==> t[i] == s[i]);
}

/// The full `World Sector` entity-class payload: a `NormalSector` followed
/// by node checksums, blend values, the music reference and string-table
/// locations.
#[derive(Debug, PartialEq)]
pub struct WorldSector<'a> {
    pub normal_sector: NormalSector,
    pub node_crc_0: usize,
    pub node_crc_1: usize,
    pub node_crc_2: usize,
    pub node_crc_3: usize,
    pub node_crc_4: usize,
    pub blend_value_0: usize,
    pub blend_value_1: usize,
    pub blend_value_2: usize,
    pub blend_value_3: u32,
    pub node_crc_5: usize,
    pub node_crc_6: usize,
    pub node_crc_7: usize,
    pub node_crc_8: usize,
    pub node_crc_9: usize,
    pub action_count: usize,
    pub music_name: &'a [u8],
    pub music_crc: usize,
    pub blend_value_4: u32,
    pub blend_value_5: u32,
    pub blend_value_6: u32,
    pub blend_value_7: u32,
    pub unknown_0: usize,
    pub blend_value_8: u32,
    pub blend_value_9: usize,
    pub blend_value_10: usize,
    pub blend_value_11: usize,
    pub blend_value_12: usize,
    pub blend_value_13: usize,
    pub blend_value_14: usize,
    pub blend_value_15: usize,
    pub string_table_crc_0: usize,
    pub string_table_loc_0: usize,
    pub string_table_crc_1: usize,
    pub string_table_loc_1: usize,
    pub unknown_1: usize,
    pub unknown_2: usize,
    pub unknown_3: usize,
    pub node_crc_10: usize,
}

impl<'a> WorldSector<'a> {
    /// Number of tokens this record consumes.
    pub const LENGTH: usize = 100;

    /// The record fits and every token it reads has the kind it expects.
    pub open spec fn spec_wf(s: Seq<TkKind<'a>>) -> bool {
        &&& NormalSector::spec_wf(s)
        &&& s.len() >= 100
        &&& s[62].is_hex_kind()
        &&& s[63].is_hex_kind()
        &&& s[64].is_hex_kind()
        &&& s[65].is_hex_kind()
        &&& s[66].is_hex_kind()
        &&& s[67].is_int_kind()
        &&& s[68].is_int_kind()
        &&& s[69].is_int_kind()
        &&& s[70].is_float_kind()
        &&& s[71].is_hex_kind()
        &&& s[72].is_hex_kind()
        &&& s[73].is_hex_kind()
        &&& s[74].is_hex_kind()
        &&& s[75].is_hex_kind()
        &&& s[76].is_int_kind()
        &&& s[77].is_str_kind()
        &&& s[78].is_hex_kind()
        &&& s[79].is_float_kind()
        &&& s[80].is_float_kind()
        &&& s[81].is_float_kind()
        &&& s[82].is_float_kind()
        &&& s[83].is_int_kind()
        &&& s[84].is_float_kind()
        &&& s[85].is_int_kind()
        &&& s[86].is_int_kind()
        &&& s[87].is_int_kind()
        &&& s[88].is_int_kind()
        &&& s[89].is_int_kind()
        &&& s[90].is_int_kind()
        &&& s[91].is_int_kind()
        &&& s[92].is_hex_kind()
        &&& s[93].is_int_kind()
        &&& s[94].is_hex_kind()
        &&& s[95].is_int_kind()
        &&& s[96].is_int_kind()
        &&& s[97].is_int_kind()
        &&& s[98].is_int_kind()
        &&& s[99].is_hex_kind()
    }

    /// Kind correctness of however much of the record is present.
    pub open spec fn spec_prefix_ok(s: Seq<TkKind<'a>>) -> bool {
        &&& NormalSector::spec_prefix_ok(s)
        &&& (62 < s.len() ==> s[62].is_hex_kind())
        &&& (63 < s.len() ==> s[63].is_hex_kind())
        &&& (64 < s.len() ==> s[64].is_hex_kind())
        &&& (65 < s.len() ==> s[65].is_hex_kind())
        &&& (66 < s.len() ==> s[66].is_hex_kind())
        &&& (67 < s.len() ==> s[67].is_int_kind())
        &&& (68 < s.len() ==> s[68].is_int_kind())
        &&& (69 < s.len() ==> s[69].is_int_kind())
        &&& (70 < s.len() ==> s[70].is_float_kind())
        &&& (71 < s.len() ==> s[71].is_hex_kind())
        &&& (72 < s.len() ==> s[72].is_hex_kind())
        &&& (73 < s.len() ==> s[73].is_hex_kind())
        &&& (74 < s.len() ==> s[74].is_hex_kind())
        &&& (75 < s.len() ==> s[75].is_hex_kind())
        &&& (76 < s.len() ==> s[76].is_int_kind())
        &&& (77 < s.len() ==> s[77].is_str_kind())
        &&& (78 < s.len() ==> s[78].is_hex_kind())
        &&& (79 < s.len() ==> s[79].is_float_kind())
        &&& (80 < s.len() ==> s[80].is_float_kind())
        &&& (81 < s.len() ==> s[81].is_float_kind())
        &&& (82 < s.len() ==> s[82].is_float_kind())
        &&& (83 < s.len() ==> s[83].is_int_kind())
        &&& (84 < s.len() ==> s[84].is_float_kind())
        &&& (85 < s.len() ==> s[85].is_int_kind())
        &&& (86 < s.len() ==> s[86].is_int_kind())
        &&& (87 < s.len() ==> s[87].is_int_kind())
        &&& (88 < s.len() ==> s[88].is_int_kind())
        &&& (89 < s.len() ==> s[89].is_int_kind())
        &&& (90 < s.len() ==> s[90].is_int_kind())
        &&& (91 < s.len() ==> s[91].is_int_kind())
        &&& (92 < s.len() ==> s[92].is_hex_kind())
        &&& (93 < s.len() ==> s[93].is_int_kind())
        &&& (94 < s.len() ==> s[94].is_hex_kind())
        &&& (95 < s.len() ==> s[95].is_int_kind())
        &&& (96 < s.len() ==> s[96].is_int_kind())
        &&& (97 < s.len() ==> s[97].is_int_kind())
        &&& (98 < s.len() ==> s[98].is_int_kind())
        &&& (99 < s.len() ==> s[99].is_hex_kind())
    }

    /// The decoded record.
    pub open spec fn spec_value(s: Seq<TkKind<'a>>) -> WorldSector<'a>
        recommends
            Self::spec_wf(s),
    {
        (WorldSector {
            normal_sector: NormalSector::spec_value(s),
            node_crc_0: s[62].spec_hex(),
            node_crc_1: s[63].spec_hex(),
            node_crc_2: s[64].spec_hex(),
            node_crc_3: s[65].spec_hex(),
            node_crc_4: s[66].spec_hex(),
            blend_value_0: s[67].spec_int(),
            blend_value_1: s[68].spec_int(),
            blend_value_2: s[69].spec_int(),
            blend_value_3: s[70].spec_float_bits(),
            node_crc_5: s[71].spec_hex(),
            node_crc_6: s[72].spec_hex(),
            node_crc_7: s[73].spec_hex(),
            node_crc_8: s[74].spec_hex(),
            node_crc_9: s[75].spec_hex(),
            action_count: s[76].spec_int(),
            music_name: s[77].spec_str_ref(),
            music_crc: s[78].spec_hex(),
            blend_value_4: s[79].spec_float_bits(),
            blend_value_5: s[80].spec_float_bits(),
            blend_value_6: s[81].spec_float_bits(),
            blend_value_7: s[82].spec_float_bits(),
            unknown_0: s[83].spec_int(),
            blend_value_8: s[84].spec_float_bits(),
            blend_value_9: s[85].spec_int(),
            blend_value_10: s[86].spec_int(),
            blend_value_11: s[87].spec_int(),
            blend_value_12: s[88].spec_int(),
            blend_value_13: s[89].spec_int(),
            blend_value_14: s[90].spec_int(),
            blend_value_15: s[91].spec_int(),
            string_table_crc_0: s[92].spec_hex(),
            string_table_loc_0: s[93].spec_int(),
            string_table_crc_1: s[94].spec_hex(),
            string_table_loc_1: s[95].spec_int(),
            unknown_1: s[96].spec_int(),
            unknown_2: s[97].spec_int(),
            unknown_3: s[98].spec_int(),
            node_crc_10: s[99].spec_hex(),
        })
    }

    /// What decoding yields on any token slice: the first failing read
    /// in index order classifies the error.
    pub open spec fn spec_decode(s: Seq<TkKind<'a>>) -> Result<WorldSector<'a>, Error> {
        match NormalSector::spec_decode(s) {
            Err(e) => Err(e),
            Ok(_) => Self::spec_decode_tail(s),
        }
    }

    /// Decode of the fields this record adds past its base.
    pub open spec fn spec_decode_tail(s: Seq<TkKind<'a>>) -> Result<WorldSector<'a>, Error> {
        if !((62 < s.len() ==> s[62].is_hex_kind()) && (63 < s.len() ==> s[63].is_hex_kind()) && (64 < s.len() ==> s[64].is_hex_kind()) && (65 < s.len() ==> s[65].is_hex_kind()) && (66 < s.len() ==> s[66].is_hex_kind()) && (67 < s.len() ==> s[67].is_int_kind()) && (68 < s.len() ==> s[68].is_int_kind()) && (69 < s.len() ==> s[69].is_int_kind()) && (70 < s.len() ==> s[70].is_float_kind()) && (71 < s.len() ==> s[71].is_hex_kind()) && (72 < s.len() ==> s[72].is_hex_kind()) && (73 < s.len() ==> s[73].is_hex_kind()) && (74 < s.len() ==> s[74].is_hex_kind()) && (75 < s.len() ==> s[75].is_hex_kind()) && (76 < s.len() ==> s[76].is_int_kind()) && (77 < s.len() ==> s[77].is_str_kind()) && (78 < s.len() ==> s[78].is_hex_kind()) && (79 < s.len() ==> s[79].is_float_kind()) && (80 < s.len() ==> s[80].is_float_kind()) && (81 < s.len() ==> s[81].is_float_kind()) && (82 < s.len() ==> s[82].is_float_kind()) && (83 < s.len() ==> s[83].is_int_kind()) && (84 < s.len() ==> s[84].is_float_kind()) && (85 < s.len() ==> s[85].is_int_kind()) && (86 < s.len() ==> s[86].is_int_kind()) && (87 < s.len() ==> s[87].is_int_kind()) && (88 < s.len() ==> s[88].is_int_kind()) && (89 < s.len() ==> s[89].is_int_kind()) && (90 < s.len() ==> s[90].is_int_kind()) && (91 < s.len() ==> s[91].is_int_kind()) && (92 < s.len() ==> s[92].is_hex_kind()) && (93 < s.len() ==> s[93].is_int_kind()) && (94 < s.len() ==> s[94].is_hex_kind()) && (95 < s.len() ==> s[95].is_int_kind()) && (96 < s.len() ==> s[96].is_int_kind()) && (97 < s.len() ==> s[97].is_int_kind()) && (98 < s.len() ==> s[98].is_int_kind()) && (99 < s.len() ==> s[99].is_hex_kind())) {
            Err(Error::InvalidTokenKind)
        } else if !(s.len() >= 100 && s[62].is_hex_kind() && s[63].is_hex_kind() && s[64].is_hex_kind() && s[65].is_hex_kind() && s[66].is_hex_kind() && s[67].is_int_kind() && s[68].is_int_kind() && s[69].is_int_kind() && s[70].is_float_kind() && s[71].is_hex_kind() && s[72].is_hex_kind() && s[73].is_hex_kind() && s[74].is_hex_kind() && s[75].is_hex_kind() && s[76].is_int_kind() && s[77].is_str_kind() && s[78].is_hex_kind() && s[79].is_float_kind() && s[80].is_float_kind() && s[81].is_float_kind() && s[82].is_float_kind() && s[83].is_int_kind() && s[84].is_float_kind() && s[85].is_int_kind() && s[86].is_int_kind() && s[87].is_int_kind() && s[88].is_int_kind() && s[89].is_int_kind() && s[90].is_int_kind() && s[91].is_int_kind() && s[92].is_hex_kind() && s[93].is_int_kind() && s[94].is_hex_kind() && s[95].is_int_kind() && s[96].is_int_kind() && s[97].is_int_kind() && s[98].is_int_kind() && s[99].is_hex_kind()) {
            Err(Error::ParseError(ParseError::UnexpectedEnd))
        } else {
            Ok(Self::spec_value(s))
        }
    }

    /// Decodes the record from the front of `tokens`, reading each field
    /// at its fixed position; exactly `spec_decode` of the tokens.
    pub fn from_tokens(tokens: &[TkKind<'a>]) -> (r: Result<Self, Error>)
        ensures
            r == Self::spec_decode(tokens@),
    {
        let normal_sector = NormalSector::from_tokens(tokens)?;
        let node_crc_0 = read_hex(tokens, 62)?;
        let node_crc_1 = read_hex(tokens, 63)?;
        let node_crc_2 = read_hex(tokens, 64)?;
        let node_crc_3 = read_hex(tokens, 65)?;
        let node_crc_4 = read_hex(tokens, 66)?;
        let blend_value_0 = read_int(tokens, 67)?;
        let blend_value_1 = read_int(tokens, 68)?;
        let blend_value_2 = read_int(tokens, 69)?;
        let blend_value_3 = read_float(tokens, 70)?;
        let node_crc_5 = read_hex(tokens, 71)?;
        let node_crc_6 = read_hex(tokens, 72)?;
        let node_crc_7 = read_hex(tokens, 73)?;
        let node_crc_8 = read_hex(tokens, 74)?;
        let node_crc_9 = read_hex(tokens, 75)?;
        let action_count = read_int(tokens, 76)?;
        let music_name = read_str(tokens, 77)?;
        let music_crc = read_hex(tokens, 78)?;
        let blend_value_4 = read_float(tokens, 79)?;
        let blend_value_5 = read_float(tokens, 80)?;
        let blend_value_6 = read_float(tokens, 81)?;
        let blend_value_7 = read_float(tokens, 82)?;
        let unknown_0 = read_int(tokens, 83)?;
        let blend_value_8 = read_float(tokens, 84)?;
        let blend_value_9 = read_int(tokens, 85)?;
        let blend_value_10 = read_int(tokens, 86)?;
        let blend_value_11 = read_int(tokens, 87)?;
        let blend_value_12 = read_int(tokens, 88)?;
        let blend_value_13 = read_int(tokens, 89)?;
        let blend_value_14 = read_int(tokens, 90)?;
        let blend_value_15 = read_int(tokens, 91)?;
        let string_table_crc_0 = read_hex(tokens, 92)?;
        let string_table_loc_0 = read_int(tokens, 93)?;
        let string_table_crc_1 = read_hex(tokens, 94)?;
        let string_table_loc_1 = read_int(tokens, 95)?;
        let unknown_1 = read_int(tokens, 96)?;
        let unknown_2 = read_int(tokens, 97)?;
        let unknown_3 = read_int(tokens, 98)?;
        let node_crc_10 = read_hex(tokens, 99)?;
        Ok(WorldSector {
            normal_sector,
            node_crc_0,
            node_crc_1,
            node_crc_2,
            node_crc_3,
            node_crc_4,
            blend_value_0,
            blend_value_1,
            blend_value_2,
            blend_value_3,
            node_crc_5,
            node_crc_6,
            node_crc_7,
            node_crc_8,
            node_crc_9,
            action_count,
            music_name,
            music_crc,
            blend_value_4,
            blend_value_5,
            blend_value_6,
            blend_value_7,
            unknown_0,
            blend_value_8,
            blend_value_9,
            blend_value_10,
            blend_value_11,
            blend_value_12,
            blend_value_13,
            blend_value_14,
            blend_value_15,
            string_table_crc_0,
            string_table_loc_0,
            string_table_crc_1,
            string_table_loc_1,
            unknown_1,
            unknown_2,
            unknown_3,
            node_crc_10,
        })
    }
}

/// The record reads only its own span: decoding ignores everything past
/// the first `WorldSector::LENGTH` tokens.
pub proof fn lemma_world_sector_prefix_stable<'a>(s: Seq<TkKind<'a>>, k: int)
    requires
        WorldSector::LENGTH <= k <= s.len(),
    ensures
        WorldSector::spec_decode(s.take(k)) == WorldSector::spec_decode(s),
{
    let t = s.take(k);
    assert(forall|i: int| 0 <= i < k ==> t[i] == s[i]);
    lemma_normal_sector_prefix_stable(s, k);
    if NormalSector::spec_decode(s) is Ok {
        assert(WorldSector::spec_decode_tail(t) == WorldSector::spec_decode_tail(s)) by {
            if WorldSector::spec_decode_tail(s) is Ok {
                assert(WorldSector::spec_value(t) == WorldSector::spec_value(s));
            }
        }
    }
}

/// Truncation safety: a strict prefix of a decodable record fails with
/// `UnexpectedEnd`, never anything else.
pub proof fn lemma_world_sector_truncation<'a>(s: Seq<TkKind<'a>>, k: int)
    requires
        WorldSector::spec_decode(s) is Ok,
        0 <= k < WorldSector::LENGTH,
    ensures
        WorldSector::spec_decode(s.take(k)) == Err::<WorldSector, Error>(
            Error::ParseError(ParseError::UnexpectedEnd),
        ),
{
    let t = s.take(k);
    assert(forall|i: int| 0 <= i < k ==> t[i] == s[i]);
    if k < NormalSector::LENGTH {
        lemma_normal_sector_truncation(s, k);
    } else {
        lemma_normal_sector_prefix_stable(s, k);
    }
}


/// The header of the optional named entity class attached to a node. The
/// degenerate name `"<noentclass>"` means "no class": the header is then one
/// token long and nothing follows; otherwise it is five tokens, ending in the
/// declared body length `class_size`.
#[derive(Copy, Clone, Debug, PartialEq)]
pub struct EntityClassHeader<'a> {
    pub name: &'a [u8],
    pub has_entity_class: bool,
    pub runtime_id: usize,
    pub content_crc: usize,
    pub class_size: usize,
}

impl<'a> EntityClassHeader<'a> {
    /// Number of tokens a full (non-degenerate) header consumes.
    pub const LENGTH: usize = 5;

    /// The header fits and every token it reads has the kind it expects.
    pub open spec fn spec_wf(s: Seq<TkKind<'a>>) -> bool {
        &&& s.len() >= 1
        &&& s[0].is_str_kind()
        &&& (s[0].spec_str() != crate::fetm::names::spec_name_noentclass() ==> {
            &&& s.len() >= 5
            &&& s[1].is_int_kind()
            &&& s[2].is_int_kind()
            &&& s[3].is_hex_kind()
            &&& s[4].is_int_kind()
        })
    }

    /// Kind correctness of however much of the header is present.
    pub open spec fn spec_prefix_ok(s: Seq<TkKind<'a>>) -> bool {
        &&& (0 < s.len() ==> s[0].is_str_kind())
        &&& ((0 < s.len() && s[0].is_str_kind() && s[0].spec_str()
            != crate::fetm::names::spec_name_noentclass()) ==> {
            &&& (1 < s.len() ==> s[1].is_int_kind())
            &&& (2 < s.len() ==> s[2].is_int_kind())
            &&& (3 < s.len() ==> s[3].is_hex_kind())
            &&& (4 < s.len() ==> s[4].is_int_kind())
        })
    }

    /// The decoded header.
    pub open spec fn spec_value(s: Seq<TkKind<'a>>) -> EntityClassHeader<'a>
        recommends
            Self::spec_wf(s),
    {
        if s[0].spec_str() == crate::fetm::names::spec_name_noentclass() {
            (EntityClassHeader {
                name: s[0].spec_str_ref(),
                has_entity_class: false,
                runtime_id: 0,
                content_crc: 0,
                class_size: 0,
            })
        } else {
            (EntityClassHeader {
                name: s[0].spec_str_ref(),
                has_entity_class: s[1].spec_int() != 0,
                runtime_id: s[2].spec_int(),
                content_crc: s[3].spec_hex(),
                class_size: s[4].spec_int(),
            })
        }
    }

    /// What decoding yields on any token slice.
    pub open spec fn spec_decode(s: Seq<TkKind<'a>>) -> Result<EntityClassHeader<'a>, Error> {
        if !Self::spec_prefix_ok(s) {
            Err(Error::InvalidTokenKind)
        } else if !Self::spec_wf(s) {
            Err(Error::ParseError(ParseError::UnexpectedEnd))
        } else {
            Ok(Self::spec_value(s))
        }
    }

    /// Header length in tokens: one for the degenerate header, five otherwise.
    pub open spec fn spec_len(self) -> int {
        if self.name@ == crate::fetm::names::spec_name_noentclass() {
            1
        } else {
            5
        }
    }

    /// Header length in tokens, as `spec_len`.
    pub fn len(&self) -> (r: usize)
        ensures
            r == self.spec_len(),
    {
        if crate::fetm::names::name_is_noentclass(self.name) {
            1
        } else {
            5
        }
    }

    /// Decodes the header: the name string, then, unless the name is the
    /// no-class sentinel, the instance flag, the two identifiers and the
    /// declared body length.
    pub fn from_tokens(tokens: &[TkKind<'a>]) -> (r: Result<Self, Error>)
        ensures
            r == Self::spec_decode(tokens@),
    {
        let name = read_str(tokens, 0)?;
        if crate::fetm::names::name_is_noentclass(name) {
            return Ok(EntityClassHeader {
                name,
                has_entity_class: false,
                runtime_id: 0,
                content_crc: 0,
                class_size: 0,
            });
        }
        let has_entity_class = read_int(tokens, 1)? != 0;
        let runtime_id = read_int(tokens, 2)?;
        let content_crc = read_hex(tokens, 3)?;
        let class_size = read_int(tokens, 4)?;
        Ok(EntityClassHeader { name, has_entity_class, runtime_id, content_crc, class_size })
    }
}

/// Header length law: a decoded header is one token long exactly when its
/// name is the no-class sentinel, and five tokens long otherwise.
pub proof fn lemma_header_length_law(s: Seq<TkKind>, h: EntityClassHeader)
    requires
        EntityClassHeader::spec_decode(s) == Ok::<EntityClassHeader, Error>(h),
    ensures
        (h.spec_len() == 1) <==> (h.name@ == crate::fetm::names::spec_name_noentclass()),
        (h.spec_len() == 5) <==> (h.name@ != crate::fetm::names::spec_name_noentclass()),
        h.name@ == crate::fetm::names::spec_name_noentclass() ==> !h.has_entity_class
            && h.class_size == 0,
{
}

/// The header reads only its own span.
pub proof fn lemma_header_prefix_stable(s: Seq<TkKind>, k: int)
    requires
        EntityClassHeader::spec_decode(s) matches Ok(h) && h.spec_len() <= k <= s.len(),
    ensures
        EntityClassHeader::spec_decode(s.take(k)) == EntityClassHeader::spec_decode(s),
{
    let t = s.take(k);
    assert(forall|i: int| 0 <= i < k ==> t[i] == s[i]);
    let h = EntityClassHeader::spec_decode(s).unwrap();
    if h.name@ == crate::fetm::names::spec_name_noentclass() {
        assert(EntityClassHeader::spec_value(t) == EntityClassHeader::spec_value(s));
    } else {
        assert(EntityClassHeader::spec_value(t) == EntityClassHeader::spec_value(s));
    }
}

/// Truncation safety for the header.
pub proof fn lemma_header_truncation(s: Seq<TkKind>, k: int)
    requires
        EntityClassHeader::spec_decode(s) matches Ok(h) && 0 <= k < h.spec_len(),
    ensures
        EntityClassHeader::spec_decode(s.take(k)) == Err::<EntityClassHeader, Error>(
            Error::ParseError(ParseError::UnexpectedEnd),
        ),
{
    let t = s.take(k);
    assert(forall|i: int| 0 <= i < k ==> t[i] == s[i]);
}

/// A named entity class: its header and its dispatched body. The body span
/// is exactly `header.class_size` tokens; `len` is `header.len() +
/// header.class_size`, the hard invariant every caller uses to skip past a
/// class it does not interpret.
#[derive(Debug, PartialEq)]
pub struct EntityClass<'a> {
    pub header: EntityClassHeader<'a>,
    pub class: EntityKlass<'a>,
}

impl<'a> EntityClass<'a> {
    /// Total length in tokens: header plus declared body span.
    pub open spec fn spec_len(self) -> int {
        self.header.spec_len() + self.header.class_size
    }

    /// Total length in tokens, as `spec_len`.
    pub fn len(&self) -> (r: usize)
        requires
            self.spec_len() <= usize::MAX,
        ensures
            r == self.spec_len(),
    {
        self.header.len() + self.header.class_size
    }

    /// What decoding yields: the header, then a body span of exactly
    /// `class_size` tokens handed to the name dispatch.
    pub open spec fn spec_decode(s: Seq<TkKind<'a>>) -> Result<EntityClass<'a>, Error> {
        match EntityClassHeader::spec_decode(s) {
            Err(e) => Err(e),
            Ok(h) => if s.len() < h.spec_len() + h.class_size {
                Err(Error::ParseError(ParseError::UnexpectedEnd))
            } else {
                match EntityKlass::spec_decode(
                    h.name@,
                    s.subrange(h.spec_len(), h.spec_len() + h.class_size),
                ) {
                    Err(e) => Err(e),
                    Ok(c) => Ok(EntityClass { header: h, class: c }),
                }
            },
        }
    }

    /// Decodes the header, takes the next `class_size` tokens verbatim as
    /// the body span, and dispatches on the class name.
    pub fn from_tokens(tokens: &[TkKind<'a>]) -> (r: Result<Self, Error>)
        ensures
            r == Self::spec_decode(tokens@),
    {
        let header = EntityClassHeader::from_tokens(tokens)?;
        let hl = header.len();
        let n: usize = tokens.len();
        if n < hl || n - hl < header.class_size {
            return Err(Error::ParseError(ParseError::UnexpectedEnd));
        }
        let span = vstd::slice::slice_subrange(tokens, hl, hl + header.class_size);
        let class = EntityKlass::from_header(header, span)?;
        Ok(EntityClass { header, class })
    }
}

/// A decoded entity class fits inside the tokens it was decoded from.
pub proof fn lemma_entity_class_fits(s: Seq<TkKind>)
    ensures
        EntityClass::spec_decode(s) matches Ok(c) ==> c.spec_len() <= s.len(),
{
}

/// Length additivity law: an entity class is exactly its header plus its
/// declared body span.
pub proof fn lemma_entity_class_length_law(c: EntityClass)
    ensures
        c.spec_len() == c.header.spec_len() + c.header.class_size,
{
}

/// The entity class reads only its own span.
pub proof fn lemma_entity_class_prefix_stable(s: Seq<TkKind>, k: int)
    requires
        EntityClass::spec_decode(s) matches Ok(c) && c.spec_len() <= k <= s.len(),
    ensures
        EntityClass::spec_decode(s.take(k)) == EntityClass::spec_decode(s),
{
    let c = EntityClass::spec_decode(s).unwrap();
    let t = s.take(k);
    let h = c.header;
    lemma_header_prefix_stable(s, k);
    assert(t.subrange(h.spec_len(), h.spec_len() + h.class_size) =~= s.subrange(
        h.spec_len(),
        h.spec_len() + h.class_size,
    ));
}

/// Truncation safety: a strict prefix of a decodable entity class fails with
/// `UnexpectedEnd`, never anything else.
pub proof fn lemma_entity_class_truncation(s: Seq<TkKind>, k: int)
    requires
        EntityClass::spec_decode(s) matches Ok(c) && 0 <= k < c.spec_len(),
    ensures
        EntityClass::spec_decode(s.take(k)) == Err::<EntityClass, Error>(
            Error::ParseError(ParseError::UnexpectedEnd),
        ),
{
    let c = EntityClass::spec_decode(s).unwrap();
    let h = c.header;
    if k < h.spec_len() {
        lemma_header_truncation(s, k);
    } else {
        lemma_header_prefix_stable(s, k);
    }
}

/// When an entity class decodes, exactly: the header decodes, the declared
/// body span is present, and the name dispatch accepts the span. Dispatch
/// failures propagate, as every failure other than non-recognition must.
pub proof fn lemma_entity_class_success(s: Seq<TkKind>)
    ensures
        EntityClass::spec_decode(s) is Ok <==> (EntityClassHeader::spec_decode(s) matches Ok(h)
            && s.len() >= h.spec_len() + h.class_size && EntityKlass::spec_decode(
            h.name@,
            s.subrange(h.spec_len(), h.spec_len() + h.class_size),
        ) is Ok),
{
}

/// Degrade-not-fail: dispatch under any name other than the two recognized
/// payload layouts accepts every span, so an unknown class never blocks the
/// walk; only a recognized payload can reject its span.
pub proof fn lemma_klass_degrades(name: Seq<u8>, span: Seq<TkKind>)
    ensures
        name != crate::fetm::names::spec_name_world_sector() && name
            != crate::fetm::names::spec_name_main_character() && name
            != crate::fetm::names::spec_name_dynamic_collision_node() ==> EntityKlass::spec_decode(
            name,
            span,
        ) == Ok::<EntityKlass, Error>(EntityKlass::Empty),
        name == crate::fetm::names::spec_name_dynamic_collision_node() ==> EntityKlass::spec_decode(
            name,
            span,
        ) == Ok::<EntityKlass, Error>(EntityKlass::DynamicColllsionNode),
{
}

/// String safety at the stream level: when the unread remainder of a buffer
/// starts a string token whose payload never reaches a NUL, tokenizing that
/// remainder fails with `UnexpectedEnd` — the scan never runs past the end.
pub proof fn lemma_tokenize_string_needs_nul(d: Seq<u8>)
    requires
        d.len() >= 1,
        d[0] == 7,
        forall|k: int| 1 <= k < d.len() ==> d[k] != 0,
    ensures
        spec_tokenize(d) == Err::<Seq<TokenValue>, Error>(
            Error::ParseError(ParseError::UnexpectedEnd),
        ),
{
    lemma_string_needs_nul(d);
}

/// The closed set of recognized entity-class payloads. Unrecognized names,
/// the empty name and the no-class sentinel all map to `Empty`: the corpus of
/// class names was only partially reverse-engineered, and an unknown class
/// must be walked past, not fail the decode.
#[derive(Debug, PartialEq)]
pub enum EntityKlass<'a> {
    WorldSector(WorldSector<'a>),
    MainCharacter(MainCharacter),
    DynamicColllsionNode,
    Empty,
}

impl<'a> EntityKlass<'a> {
    /// Name dispatch over the body span. Only the recognized names decode a
    /// payload; every other name degrades to `Empty`.
    pub open spec fn spec_decode(name: Seq<u8>, s: Seq<TkKind<'a>>) -> Result<
        EntityKlass<'a>,
        Error,
    > {
        if name == crate::fetm::names::spec_name_world_sector() {
            match WorldSector::spec_decode(s) {
                Err(e) => Err(e),
                Ok(w) => Ok(EntityKlass::WorldSector(w)),
            }
        } else if name == crate::fetm::names::spec_name_dynamic_collision_node() {
            Ok(EntityKlass::DynamicColllsionNode)
        } else if name == crate::fetm::names::spec_name_main_character() {
            match MainCharacter::spec_decode(s) {
                Err(e) => Err(e),
                Ok(m) => Ok(EntityKlass::MainCharacter(m)),
            }
        } else {
            Ok(EntityKlass::Empty)
        }
    }

    /// Selects the payload decoder by the header's class name, over the
    /// body span the header declared.
    pub fn from_header(header: EntityClassHeader<'a>, tokens: &[TkKind<'a>]) -> (r: Result<
        Self,
        Error,
    >)
        ensures
            r == Self::spec_decode(header.name@, tokens@),
    {
        if crate::fetm::names::name_is_world_sector(header.name) {
            Ok(EntityKlass::WorldSector(WorldSector::from_tokens(tokens)?))
        } else if crate::fetm::names::name_is_dynamic_collision_node(header.name) {
            Ok(EntityKlass::DynamicColllsionNode)
        } else if crate::fetm::names::name_is_main_character(header.name) {
            Ok(EntityKlass::MainCharacter(MainCharacter::from_tokens(tokens)?))
        } else {
            Ok(EntityKlass::Empty)
        }
    }
}


/// The top-level record of one decoded level: four flag bits packed from four
/// discrete tokens, several opaque fields preserved verbatim, the sound
/// reference, the simulation scale and a bounding pair. Its action count must
/// be zero: the action-list layout was never reverse-engineered.
#[derive(Debug, PartialEq)]
pub struct World<'a> {
    pub flags: u32,
    pub sound_name: &'a [u8],
    pub action_count: usize,
    pub one_x: u32,
    pub one_y: u32,
    pub one_z: u32,
    pub two_x: u32,
    pub two_y: u32,
    pub two_z: u32,
    pub o_104: usize,
    pub o_154: usize,
    pub o_158: usize,
    pub o_164: usize,
    pub o_168: usize,
    pub o_16c: usize,
    pub o_170: usize,
    pub o_174: usize,
    pub simulation_scale: u32,
}

impl<'a> World<'a> {
    /// Number of tokens this record consumes.
    pub const LENGTH: usize = 28;

    /// The record fits and every token it reads has the kind it expects.
    pub open spec fn spec_wf(s: Seq<TkKind<'a>>) -> bool {
        &&& s.len() >= 28
        &&& s[0].is_int_kind()
        &&& s[1].is_int_kind()
        &&& s[2].is_int_kind()
        &&& s[3].is_int_kind()
        &&& s[4].is_int_kind()
        &&& s[5].is_int_kind()
        &&& s[8].is_int_kind()
        &&& s[9].is_int_kind()
        &&& s[10].is_int_kind()
        &&& s[14].is_float_kind()
        &&& s[15].is_int_kind()
        &&& s[16].is_int_kind()
        &&& s[18].is_str_kind()
        &&& s[20].is_int_kind()
        &&& s[21].is_float_kind()
        &&& s[22].is_float_kind()
        &&& s[23].is_float_kind()
        &&& s[24].is_float_kind()
        &&& s[25].is_float_kind()
        &&& s[26].is_float_kind()
        &&& s[27].is_int_kind()
    }

    /// Kind correctness of however much of the record is present.
    pub open spec fn spec_prefix_ok(s: Seq<TkKind<'a>>) -> bool {
        &&& (0 < s.len() ==> s[0].is_int_kind())
        &&& (1 < s.len() ==> s[1].is_int_kind())
        &&& (2 < s.len() ==> s[2].is_int_kind())
        &&& (3 < s.len() ==> s[3].is_int_kind())
        &&& (4 < s.len() ==> s[4].is_int_kind())
        &&& (5 < s.len() ==> s[5].is_int_kind())
        &&& (8 < s.len() ==> s[8].is_int_kind())
        &&& (9 < s.len() ==> s[9].is_int_kind())
        &&& (10 < s.len() ==> s[10].is_int_kind())
        &&& (14 < s.len() ==> s[14].is_float_kind())
        &&& (15 < s.len() ==> s[15].is_int_kind())
        &&& (16 < s.len() ==> s[16].is_int_kind())
        &&& (18 < s.len() ==> s[18].is_str_kind())
        &&& (20 < s.len() ==> s[20].is_int_kind())
        &&& (21 < s.len() ==> s[21].is_float_kind())
        &&& (22 < s.len() ==> s[22].is_float_kind())
        &&& (23 < s.len() ==> s[23].is_float_kind())
        &&& (24 < s.len() ==> s[24].is_float_kind())
        &&& (25 < s.len() ==> s[25].is_float_kind())
        &&& (26 < s.len() ==> s[26].is_float_kind())
        &&& (27 < s.len() ==> s[27].is_int_kind())
    }

    /// The packed flags word: world flags live at bits 18, 20, 31 and 27,
    /// one token each.
    pub open spec fn spec_flags(s: Seq<TkKind<'a>>) -> u32 {
        crate::fetm::layout::spec_set_bit(
            crate::fetm::layout::spec_set_bit(
                crate::fetm::layout::spec_set_bit(
                    crate::fetm::layout::spec_set_bit(0u32, 0x12, s[0].spec_int()),
                    0x14,
                    s[1].spec_int(),
                ),
                0x1F,
                s[2].spec_int(),
            ),
            0x1B,
            s[3].spec_int(),
        )
    }

    /// The decoded record.
    pub open spec fn spec_value(s: Seq<TkKind<'a>>) -> World<'a>
        recommends
            Self::spec_wf(s),
    {
        (World {
            flags: Self::spec_flags(s),
            sound_name: s[18].spec_str_ref(),
            action_count: s[20].spec_int(),
            one_x: s[21].spec_float_bits(),
            one_y: s[22].spec_float_bits(),
            one_z: s[23].spec_float_bits(),
            two_x: s[24].spec_float_bits(),
            two_y: s[25].spec_float_bits(),
            two_z: s[26].spec_float_bits(),
            o_104: s[27].spec_int(),
            o_154: s[15].spec_int(),
            o_158: s[16].spec_int(),
            o_164: s[4].spec_int(),
            o_168: s[5].spec_int(),
            o_16c: s[8].spec_int(),
            o_170: s[9].spec_int(),
            o_174: s[10].spec_int(),
            simulation_scale: s[14].spec_float_bits(),
        })
    }

    /// What decoding yields on any token slice. A nonzero action count on an
    /// otherwise well-formed record is `CurrentlyNotSupported`.
    pub open spec fn spec_decode(s: Seq<TkKind<'a>>) -> Result<World<'a>, Error> {
        if !Self::spec_prefix_ok(s) {
            Err(Error::InvalidTokenKind)
        } else if !Self::spec_wf(s) {
            Err(Error::ParseError(ParseError::UnexpectedEnd))
        } else if s[20].spec_int() != 0 {
            Err(Error::CurrentlyNotSupported)
        } else {
            Ok(Self::spec_value(s))
        }
    }

    /// Decodes the record from the front of `tokens`, exactly as
    /// `spec_decode` describes it.
    pub fn from_tokens(tokens: &[TkKind<'a>]) -> (r: Result<Self, Error>)
        ensures
            r == Self::spec_decode(tokens@),
    {
        let v0 = read_int(tokens, 0)?;
        let v1 = read_int(tokens, 1)?;
        let v2 = read_int(tokens, 2)?;
        let v3 = read_int(tokens, 3)?;
        let o_164 = read_int(tokens, 4)?;
        let o_168 = read_int(tokens, 5)?;
        let o_16c = read_int(tokens, 8)?;
        let o_170 = read_int(tokens, 9)?;
        let o_174 = read_int(tokens, 10)?;
        let simulation_scale = read_float(tokens, 14)?;
        let o_154 = read_int(tokens, 15)?;
        let o_158 = read_int(tokens, 16)?;
        let sound_name = read_str(tokens, 18)?;
        let action_count = read_int(tokens, 20)?;
        let one_x = read_float(tokens, 21)?;
        let one_y = read_float(tokens, 22)?;
        let one_z = read_float(tokens, 23)?;
        let two_x = read_float(tokens, 24)?;
        let two_y = read_float(tokens, 25)?;
        let two_z = read_float(tokens, 26)?;
        let o_104 = read_int(tokens, 27)?;
        if action_count != 0 {
            return Err(Error::CurrentlyNotSupported);
        }
        let flags = crate::fetm::layout::set_bit(
            crate::fetm::layout::set_bit(
                crate::fetm::layout::set_bit(
                    crate::fetm::layout::set_bit(0u32, 0x12, v0),
                    0x14,
                    v1,
                ),
                0x1F,
                v2,
            ),
            0x1B,
            v3,
        );
        Ok(World {
            flags,
            sound_name,
            action_count,
            one_x,
            one_y,
            one_z,
            two_x,
            two_y,
            two_z,
            o_104,
            o_154,
            o_158,
            o_164,
            o_168,
            o_16c,
            o_170,
            o_174,
            simulation_scale,
        })
    }
}

/// The record reads only its own span.
pub proof fn lemma_world_prefix_stable(s: Seq<TkKind>, k: int)
    requires
        World::LENGTH <= k <= s.len(),
    ensures
        World::spec_decode(s.take(k)) == World::spec_decode(s),
{
    let t = s.take(k);
    assert(forall|i: int| 0 <= i < k ==> t[i] == s[i]);
    if World::spec_decode(s) is Ok {
        assert(World::spec_value(t) == World::spec_value(s));
    }
}

/// Truncation safety: a strict prefix of a decodable record fails with
/// `UnexpectedEnd`, never anything else.
pub proof fn lemma_world_truncation(s: Seq<TkKind>, k: int)
    requires
        World::spec_decode(s) is Ok,
        0 <= k < World::LENGTH,
    ensures
        World::spec_decode(s.take(k)) == Err::<World, Error>(
            Error::ParseError(ParseError::UnexpectedEnd),
        ),
{
    let t = s.take(k);
    assert(forall|i: int| 0 <= i < k ==> t[i] == s[i]);
}


/// Bit positions of the packed node flags word, one per stored token. This
/// table is the only place the flag semantics are recorded; the decoder sets
/// each bit from its own token, in the order the tokens are stored.
pub const BIT_PAUSE_WHEN_ROOM_NOT_VISIBLE: u32 = 13;

pub const BIT_REGISTERED: u32 = 22;

pub const BIT_MISSING_ENTITY_CLASS: u32 = 23;

pub const BIT_TIMER_ACTIVE: u32 = 21;

pub const BIT_PAUSE_WHEN_NOT_VISIBLE: u32 = 11;

pub const BIT_IS_STATIC: u32 = 10;

pub const BIT_ADVANCED: u32 = 19;

pub const BIT_ACTION_LIST_ENABLED: u32 = 20;

pub const BIT_CUSTOM_BOUNDING_BOX: u32 = 18;

pub const BIT_PAUSE_WHEN_NOT_LOADED: u32 = 17;

pub const BIT_PAUSE_WHEN_SECTOR_NOT_CURRENT: u32 = 16;

pub const BIT_PAUSE_WHEN_ROOM_NOT_CURRENT: u32 = 15;

pub const BIT_PAUSE_WHEN_SECTOR_NOT_VISIBLE: u32 = 14;

/// The record every scene-node payload starts with: a transform, one
/// visibility flag, six bound floats, the packed flags word assembled from
/// the boolean tokens at the positions the bit table names (plus one raw
/// hex word OR-ed in), an action-list count that must be zero (the
/// action-list layout was never reverse-engineered), and an optional
/// attachment.
#[derive(Debug, PartialEq)]
pub struct BaseNode<'a> {
    pub transform: Transform,
    pub flags: u32,
    pub min_x: u32,
    pub min_y: u32,
    pub min_z: u32,
    pub max_x: u32,
    pub max_y: u32,
    pub max_z: u32,
    pub unknown_0: u32,
    pub unknown_1: usize,
    pub sector_crc: usize,
    pub unknown_2: usize,
    pub action_count: usize,
    pub has_attachment: usize,
    pub attachment: Option<Attachment<'a>>,
}

impl<'a> BaseNode<'a> {
    /// Tokens past the transform that the fixed part consumes.
    pub const FIXED_TAIL: usize = 26;

    /// Number of tokens consumed: transform, fixed part, attachment if any.
    pub open spec fn spec_size(self) -> int {
        self.transform.spec_size() + 26 + (match self.attachment {
            Some(a) => a.spec_size(),
            None => 0,
        })
    }

    /// Number of tokens consumed, as `spec_size`.
    pub fn size(&self) -> (r: usize)
        ensures
            r == self.spec_size(),
    {
        let att: usize = match &self.attachment {
            Some(a) => a.size(),
            None => 0,
        };
        self.transform.size() + 26 + att
    }

    /// Kind correctness of however much of the fixed tail is present
    /// (`t` starts right after the transform).
    pub open spec fn spec_tail_prefix_ok(t: Seq<TkKind<'a>>) -> bool {
        &&& (0 < t.len() ==> t[0].is_int_kind())
        &&& (1 < t.len() ==> t[1].is_float_kind())
        &&& (2 < t.len() ==> t[2].is_float_kind())
        &&& (3 < t.len() ==> t[3].is_float_kind())
        &&& (4 < t.len() ==> t[4].is_float_kind())
        &&& (5 < t.len() ==> t[5].is_float_kind())
        &&& (6 < t.len() ==> t[6].is_float_kind())
        &&& (7 < t.len() ==> t[7].is_int_kind())
        &&& (8 < t.len() ==> t[8].is_int_kind())
        &&& (9 < t.len() ==> t[9].is_int_kind())
        &&& (10 < t.len() ==> t[10].is_int_kind())
        &&& (11 < t.len() ==> t[11].is_hex_kind())
        &&& (12 < t.len() ==> t[12].is_int_kind())
        &&& (13 < t.len() ==> t[13].is_float_kind())
        &&& (14 < t.len() ==> t[14].is_int_kind())
        &&& (15 < t.len() ==> t[15].is_int_kind())
        &&& (16 < t.len() ==> t[16].is_hex_kind())
        &&& (17 < t.len() ==> t[17].is_int_kind())
        &&& (18 < t.len() ==> t[18].is_int_kind())
        &&& (19 < t.len() ==> t[19].is_int_kind())
        &&& (20 < t.len() ==> t[20].is_int_kind())
        &&& (21 < t.len() ==> t[21].is_int_kind())
        &&& (22 < t.len() ==> t[22].is_int_kind())
        &&& (23 < t.len() ==> t[23].is_int_kind())
        &&& (24 < t.len() ==> t[24].is_int_kind())
        &&& (25 < t.len() ==> t[25].is_int_kind())
    }

    /// The packed flags word assembled from the fixed tail, bit by bit in
    /// stored order; the raw hex word at position 11 is OR-ed in between,
    /// so the bits written after it overwrite its values at their positions.
    pub open spec fn spec_flags(t: Seq<TkKind<'a>>) -> u32 {
        let f0 = crate::fetm::layout::spec_set_bit(
            0u32,
            BIT_PAUSE_WHEN_ROOM_NOT_VISIBLE,
            t[0].spec_int(),
        );
        let f1 = crate::fetm::layout::spec_set_bit(f0, BIT_REGISTERED, t[7].spec_int());
        let f2 = crate::fetm::layout::spec_set_bit(f1, BIT_MISSING_ENTITY_CLASS, t[8].spec_int());
        let f3 = crate::fetm::layout::spec_set_bit(f2, BIT_TIMER_ACTIVE, t[9].spec_int());
        let f4 = crate::fetm::layout::spec_set_bit(
            f3,
            BIT_PAUSE_WHEN_NOT_VISIBLE,
            t[10].spec_int(),
        );
        let f5 = f4 | (t[11].spec_hex() as u32);
        let f6 = crate::fetm::layout::spec_set_bit(f5, BIT_IS_STATIC, t[12].spec_int());
        let f7 = crate::fetm::layout::spec_set_bit(f6, BIT_ADVANCED, t[15].spec_int());
        let f8 = crate::fetm::layout::spec_set_bit(f7, BIT_ACTION_LIST_ENABLED, t[17].spec_int());
        let f9 = crate::fetm::layout::spec_set_bit(f8, BIT_CUSTOM_BOUNDING_BOX, t[18].spec_int());
        let f10 = crate::fetm::layout::spec_set_bit(
            f9,
            BIT_PAUSE_WHEN_NOT_LOADED,
            t[19].spec_int(),
        );
        let f11 = crate::fetm::layout::spec_set_bit(
            f10,
            BIT_PAUSE_WHEN_SECTOR_NOT_CURRENT,
            t[20].spec_int(),
        );
        let f12 = crate::fetm::layout::spec_set_bit(
            f11,
            BIT_PAUSE_WHEN_ROOM_NOT_CURRENT,
            t[21].spec_int(),
        );
        crate::fetm::layout::spec_set_bit(
            f12,
            BIT_PAUSE_WHEN_SECTOR_NOT_VISIBLE,
            t[22].spec_int(),
        )
    }

    /// The decoded record, given its transform, its fixed tail and its
    /// attachment.
    pub open spec fn spec_value(
        tr: Transform,
        t: Seq<TkKind<'a>>,
        att: Option<Attachment<'a>>,
    ) -> BaseNode<'a> {
        (BaseNode {
            transform: tr,
            flags: Self::spec_flags(t),
            min_x: t[1].spec_float_bits(),
            min_y: t[2].spec_float_bits(),
            min_z: t[3].spec_float_bits(),
            max_x: t[4].spec_float_bits(),
            max_y: t[5].spec_float_bits(),
            max_z: t[6].spec_float_bits(),
            unknown_0: t[13].spec_float_bits(),
            unknown_1: t[14].spec_int(),
            sector_crc: t[16].spec_hex(),
            unknown_2: t[23].spec_int(),
            action_count: t[24].spec_int(),
            has_attachment: t[25].spec_int(),
            attachment: att,
        })
    }

    /// Decode of everything past the transform.
    pub open spec fn spec_decode_tail(tr: Transform, t: Seq<TkKind<'a>>) -> Result<
        BaseNode<'a>,
        Error,
    > {
        if !Self::spec_tail_prefix_ok(t) {
            Err(Error::InvalidTokenKind)
        } else if t.len() < 26 {
            Err(Error::ParseError(ParseError::UnexpectedEnd))
        } else if t[24].spec_int() != 0 {
            Err(Error::CurrentlyNotSupported)
        } else if t[25].spec_int() != 0 {
            match Attachment::spec_decode(t.skip(26)) {
                Err(e) => Err(e),
                Ok(a) => Ok(Self::spec_value(tr, t, Some(a))),
            }
        } else {
            Ok(Self::spec_value(tr, t, None))
        }
    }

    /// What decoding yields: the transform, then the fixed tail, then the
    /// attachment if its presence flag is set.
    pub open spec fn spec_decode(s: Seq<TkKind<'a>>) -> Result<BaseNode<'a>, Error> {
        match Transform::spec_decode(s) {
            Err(e) => Err(e),
            Ok(tr) => Self::spec_decode_tail(tr, s.skip(tr.spec_size())),
        }
    }

    /// Decodes the shared node record from the front of `tokens`, exactly as
    /// `spec_decode` describes it.
    pub fn from_tokens(tokens: &[TkKind<'a>]) -> (r: Result<Self, Error>)
        ensures
            r == Self::spec_decode(tokens@),
            r matches Ok(b) ==> b.spec_size() <= tokens@.len(),
    {
        let transform = Transform::from_tokens(tokens)?;
        let tlen = transform.size();
        let n: usize = tokens.len();
        let t = vstd::slice::slice_subrange(tokens, tlen, n);
        proof {
            assert(t@ =~= tokens@.skip(transform.spec_size()));
        }
        let b_room_vis = read_int(t, 0)?;
        let min_x = read_float(t, 1)?;
        let min_y = read_float(t, 2)?;
        let min_z = read_float(t, 3)?;
        let max_x = read_float(t, 4)?;
        let max_y = read_float(t, 5)?;
        let max_z = read_float(t, 6)?;
        let b_registered = read_int(t, 7)?;
        let b_missing_class = read_int(t, 8)?;
        let b_timer_active = read_int(t, 9)?;
        let b_not_vis = read_int(t, 10)?;
        let hex_flags = read_hex(t, 11)?;
        let b_is_static = read_int(t, 12)?;
        let unknown_0 = read_float(t, 13)?;
        let unknown_1 = read_int(t, 14)?;
        let b_advanced = read_int(t, 15)?;
        let sector_crc = read_hex(t, 16)?;
        let b_action_list = read_int(t, 17)?;
        let b_custom_bbox = read_int(t, 18)?;
        let b_not_loaded = read_int(t, 19)?;
        let b_sector_cur = read_int(t, 20)?;
        let b_room_cur = read_int(t, 21)?;
        let b_sector_vis = read_int(t, 22)?;
        let unknown_2 = read_int(t, 23)?;
        let action_count = read_int(t, 24)?;
        let has_attachment = read_int(t, 25)?;
        if action_count != 0 {
            return Err(Error::CurrentlyNotSupported);
        }
        let attachment: Option<Attachment<'a>> = if has_attachment != 0 {
            let m: usize = t.len();
            let att_tokens = vstd::slice::slice_subrange(t, 26, m);
            proof {
                assert(att_tokens@ =~= t@.skip(26));
            }
            Some(Attachment::from_tokens(att_tokens)?)
        } else {
            None
        };
        let f0 = crate::fetm::layout::set_bit(0u32, BIT_PAUSE_WHEN_ROOM_NOT_VISIBLE, b_room_vis);
        let f1 = crate::fetm::layout::set_bit(f0, BIT_REGISTERED, b_registered);
        let f2 = crate::fetm::layout::set_bit(f1, BIT_MISSING_ENTITY_CLASS, b_missing_class);
        let f3 = crate::fetm::layout::set_bit(f2, BIT_TIMER_ACTIVE, b_timer_active);
        let f4 = crate::fetm::layout::set_bit(f3, BIT_PAUSE_WHEN_NOT_VISIBLE, b_not_vis);
        let f5 = f4 | (hex_flags as u32);
        let f6 = crate::fetm::layout::set_bit(f5, BIT_IS_STATIC, b_is_static);
        let f7 = crate::fetm::layout::set_bit(f6, BIT_ADVANCED, b_advanced);
        let f8 = crate::fetm::layout::set_bit(f7, BIT_ACTION_LIST_ENABLED, b_action_list);
        let f9 = crate::fetm::layout::set_bit(f8, BIT_CUSTOM_BOUNDING_BOX, b_custom_bbox);
        let f10 = crate::fetm::layout::set_bit(f9, BIT_PAUSE_WHEN_NOT_LOADED, b_not_loaded);
        let f11 = crate::fetm::layout::set_bit(f10, BIT_PAUSE_WHEN_SECTOR_NOT_CURRENT, b_sector_cur);
        let f12 = crate::fetm::layout::set_bit(f11, BIT_PAUSE_WHEN_ROOM_NOT_CURRENT, b_room_cur);
        let flags = crate::fetm::layout::set_bit(
            f12,
            BIT_PAUSE_WHEN_SECTOR_NOT_VISIBLE,
            b_sector_vis,
        );
        Ok(BaseNode {
            transform,
            flags,
            min_x,
            min_y,
            min_z,
            max_x,
            max_y,
            max_z,
            unknown_0,
            unknown_1,
            sector_crc,
            unknown_2,
            action_count,
            has_attachment,
            attachment,
        })
    }
}

/// The physics-simulation node payload: a `BaseNode` followed by gravity
/// and solver tuning fields.
#[derive(Debug, PartialEq)]
pub struct NodeSimulation<'a> {
    pub base_node: BaseNode<'a>,
    pub gravity_x: u32,
    pub gravity_y: u32,
    pub gravity_z: u32,
    pub sim_0x140: u32,
    pub minimum_motion: u32,
    pub update_rate: u32,
    pub method_type: usize,
    pub unknown_sim_count_0: usize,
    pub unknown_sim_type: usize,
    pub unknown_flags_0: usize,
    pub unknown_flags_1: usize,
    pub unknown_flags_2: usize,
    pub unknown_sim_count_1: usize,
    pub unknown_sim_count_2: usize,
    pub max_points_per_contact: usize,
    pub unknown_float_0: u32,
    pub sim_0xfc: u32,
    pub max_angular_velocity: u32,
    pub unknown_float_1: u32,
    pub constant_spring_force: u32,
    pub min_0: u32,
    pub min_1: u32,
    pub min_2: u32,
    pub min_3: u32,
    pub unknown_flags_3: usize,
    pub unknown_flags_4: usize,
    pub unknown_float_2: u32,
    pub max_dist: u32,
    pub neg_dist: u32,
    pub unknown_int_0: usize,
    pub unknown_int_1: usize,
    pub unknown_count_0: usize,
    pub unknown_count_1: usize,
}

impl<'a> NodeSimulation<'a> {
    /// Tokens this record consumes past its base record.
    pub const EXTRA: usize = 33;

    /// Number of tokens consumed: the base record plus the fixed tail.
    pub open spec fn spec_size(self) -> int {
        self.base_node.spec_size() + 33
    }

    /// Number of tokens consumed, as `spec_size`.
    pub fn size(&self) -> (r: usize)
        requires
            self.spec_size() <= usize::MAX,
        ensures
            r == self.spec_size(),
    {
        self.base_node.size() + 33
    }

    /// Kind correctness of however much of the tail is present
    /// (`t` starts right after the base record).
    pub open spec fn spec_tail_prefix_ok(t: Seq<TkKind<'a>>) -> bool {
        &&& (0 < t.len() ==> t[0].is_float_kind())
        &&& (1 < t.len() ==> t[1].is_float_kind())
        &&& (2 < t.len() ==> t[2].is_float_kind())
        &&& (3 < t.len() ==> t[3].is_float_kind())
        &&& (4 < t.len() ==> t[4].is_float_kind())
        &&& (5 < t.len() ==> t[5].is_float_kind())
        &&& (6 < t.len() ==> t[6].is_int_kind())
        &&& (7 < t.len() ==> t[7].is_int_kind())
        &&& (8 < t.len() ==> t[8].is_int_kind())
        &&& (9 < t.len() ==> t[9].is_int_kind())
        &&& (10 < t.len() ==> t[10].is_int_kind())
        &&& (11 < t.len() ==> t[11].is_int_kind())
        &&& (12 < t.len() ==> t[12].is_int_kind())
        &&& (13 < t.len() ==> t[13].is_int_kind())
        &&& (14 < t.len() ==> t[14].is_int_kind())
        &&& (15 < t.len() ==> t[15].is_float_kind())
        &&& (16 < t.len() ==> t[16].is_float_kind())
        &&& (17 < t.len() ==> t[17].is_float_kind())
        &&& (18 < t.len() ==> t[18].is_float_kind())
        &&& (19 < t.len() ==> t[19].is_float_kind())
        &&& (20 < t.len() ==> t[20].is_float_kind())
        &&& (21 < t.len() ==> t[21].is_float_kind())
        &&& (22 < t.len() ==> t[22].is_float_kind())
        &&& (23 < t.len() ==> t[23].is_float_kind())
        &&& (24 < t.len() ==> t[24].is_int_kind())
        &&& (25 < t.len() ==> t[25].is_int_kind())
        &&& (26 < t.len() ==> t[26].is_float_kind())
        &&& (27 < t.len() ==> t[27].is_float_kind())
        &&& (28 < t.len() ==> t[28].is_float_kind())
        &&& (29 < t.len() ==> t[29].is_int_kind())
        &&& (30 < t.len() ==> t[30].is_int_kind())
        &&& (31 < t.len() ==> t[31].is_int_kind())
        &&& (32 < t.len() ==> t[32].is_int_kind())
    }

    /// The tail fits and every token it reads has the kind it expects.
    pub open spec fn spec_tail_wf(t: Seq<TkKind<'a>>) -> bool {
        &&& t.len() >= 33
        &&& t[0].is_float_kind()
        &&& t[1].is_float_kind()
        &&& t[2].is_float_kind()
        &&& t[3].is_float_kind()
        &&& t[4].is_float_kind()
        &&& t[5].is_float_kind()
        &&& t[6].is_int_kind()
        &&& t[7].is_int_kind()
        &&& t[8].is_int_kind()
        &&& t[9].is_int_kind()
        &&& t[10].is_int_kind()
        &&& t[11].is_int_kind()
        &&& t[12].is_int_kind()
        &&& t[13].is_int_kind()
        &&& t[14].is_int_kind()
        &&& t[15].is_float_kind()
        &&& t[16].is_float_kind()
        &&& t[17].is_float_kind()
        &&& t[18].is_float_kind()
        &&& t[19].is_float_kind()
        &&& t[20].is_float_kind()
        &&& t[21].is_float_kind()
        &&& t[22].is_float_kind()
        &&& t[23].is_float_kind()
        &&& t[24].is_int_kind()
        &&& t[25].is_int_kind()
        &&& t[26].is_float_kind()
        &&& t[27].is_float_kind()
        &&& t[28].is_float_kind()
        &&& t[29].is_int_kind()
        &&& t[30].is_int_kind()
        &&& t[31].is_int_kind()
        &&& t[32].is_int_kind()
    }

    /// The decoded record, given its base and its tail.
    pub open spec fn spec_value(b: BaseNode<'a>, t: Seq<TkKind<'a>>) -> NodeSimulation<'a>
        recommends
            Self::spec_tail_wf(t),
    {
        (NodeSimulation {
            base_node: b,
            gravity_x: t[0].spec_float_bits(),
            gravity_y: t[1].spec_float_bits(),
            gravity_z: t[2].spec_float_bits(),
            sim_0x140: t[3].spec_float_bits(),
            minimum_motion: t[4].spec_float_bits(),
            update_rate: t[5].spec_float_bits(),
            method_type: t[6].spec_int(),
            unknown_sim_count_0: t[7].spec_int(),
            unknown_sim_type: t[8].spec_int(),
            unknown_flags_0: t[9].spec_int(),
            unknown_flags_1: t[10].spec_int(),
            unknown_flags_2: t[11].spec_int(),
            unknown_sim_count_1: t[12].spec_int(),
            unknown_sim_count_2: t[13].spec_int(),
            max_points_per_contact: t[14].spec_int(),
            unknown_float_0: t[15].spec_float_bits(),
            sim_0xfc: t[16].spec_float_bits(),
            max_angular_velocity: t[17].spec_float_bits(),
            unknown_float_1: t[18].spec_float_bits(),
            constant_spring_force: t[19].spec_float_bits(),
            min_0: t[20].spec_float_bits(),
            min_1: t[21].spec_float_bits(),
            min_2: t[22].spec_float_bits(),
            min_3: t[23].spec_float_bits(),
            unknown_flags_3: t[24].spec_int(),
            unknown_flags_4: t[25].spec_int(),
            unknown_float_2: t[26].spec_float_bits(),
            max_dist: t[27].spec_float_bits(),
            neg_dist: t[28].spec_float_bits(),
            unknown_int_0: t[29].spec_int(),
            unknown_int_1: t[30].spec_int(),
            unknown_count_0: t[31].spec_int(),
            unknown_count_1: t[32].spec_int(),
        })
    }

    /// Decode of the fields this record adds past its base.
    pub open spec fn spec_decode_tail(b: BaseNode<'a>, t: Seq<TkKind<'a>>) -> Result<
        NodeSimulation<'a>,
        Error,
    > {
        if !Self::spec_tail_prefix_ok(t) {
            Err(Error::InvalidTokenKind)
        } else if !Self::spec_tail_wf(t) {
            Err(Error::ParseError(ParseError::UnexpectedEnd))
        } else {
            Ok(Self::spec_value(b, t))
        }
    }

    /// What decoding yields: the base record, then the fixed tail.
    pub open spec fn spec_decode(s: Seq<TkKind<'a>>) -> Result<NodeSimulation<'a>, Error> {
        match BaseNode::spec_decode(s) {
            Err(e) => Err(e),
            Ok(b) => Self::spec_decode_tail(b, s.skip(b.spec_size())),
        }
    }

    /// Decodes the record from the front of `tokens`, exactly as
    /// `spec_decode` describes it.
    pub fn from_sectors(tokens: &[TkKind<'a>]) -> (r: Result<Self, Error>)
        ensures
            r == Self::spec_decode(tokens@),
            r matches Ok(v) ==> v.spec_size() <= tokens@.len(),
    {
        let base_node = BaseNode::from_tokens(tokens)?;
        let blen = base_node.size();
        let n: usize = tokens.len();
        let t = vstd::slice::slice_subrange(tokens, blen, n);
        proof {
            assert(t@ =~= tokens@.skip(base_node.spec_size()));
        }
        let gravity_x = read_float(t, 0)?;
        let gravity_y = read_float(t, 1)?;
        let gravity_z = read_float(t, 2)?;
        let sim_0x140 = read_float(t, 3)?;
        let minimum_motion = read_float(t, 4)?;
        let update_rate = read_float(t, 5)?;
        let method_type = read_int(t, 6)?;
        let unknown_sim_count_0 = read_int(t, 7)?;
        let unknown_sim_type = read_int(t, 8)?;
        let unknown_flags_0 = read_int(t, 9)?;
        let unknown_flags_1 = read_int(t, 10)?;
        let unknown_flags_2 = read_int(t, 11)?;
        let unknown_sim_count_1 = read_int(t, 12)?;
        let unknown_sim_count_2 = read_int(t, 13)?;
        let max_points_per_contact = read_int(t, 14)?;
        let unknown_float_0 = read_float(t, 15)?;
        let sim_0xfc = read_float(t, 16)?;
        let max_angular_velocity = read_float(t, 17)?;
        let unknown_float_1 = read_float(t, 18)?;
        let constant_spring_force = read_float(t, 19)?;
        let min_0 = read_float(t, 20)?;
        let min_1 = read_float(t, 21)?;
        let min_2 = read_float(t, 22)?;
        let min_3 = read_float(t, 23)?;
        let unknown_flags_3 = read_int(t, 24)?;
        let unknown_flags_4 = read_int(t, 25)?;
        let unknown_float_2 = read_float(t, 26)?;
        let max_dist = read_float(t, 27)?;
        let neg_dist = read_float(t, 28)?;
        let unknown_int_0 = read_int(t, 29)?;
        let unknown_int_1 = read_int(t, 30)?;
        let unknown_count_0 = read_int(t, 31)?;
        let unknown_count_1 = read_int(t, 32)?;
        Ok(NodeSimulation {
            base_node,
            gravity_x,
            gravity_y,
            gravity_z,
            sim_0x140,
            minimum_motion,
            update_rate,
            method_type,
            unknown_sim_count_0,
            unknown_sim_type,
            unknown_flags_0,
            unknown_flags_1,
            unknown_flags_2,
            unknown_sim_count_1,
            unknown_sim_count_2,
            max_points_per_contact,
            unknown_float_0,
            sim_0xfc,
            max_angular_velocity,
            unknown_float_1,
            constant_spring_force,
            min_0,
            min_1,
            min_2,
            min_3,
            unknown_flags_3,
            unknown_flags_4,
            unknown_float_2,
            max_dist,
            neg_dist,
            unknown_int_0,
            unknown_int_1,
            unknown_count_0,
            unknown_count_1,
        })
    }
}

/// The collision node payload: a `BaseNode` followed by seven flag words.
#[derive(Debug, PartialEq)]
pub struct NodeCollision<'a> {
    pub base_node: BaseNode<'a>,
    pub unknown_flags_0: usize,
    pub unknown_flags_1: usize,
    pub unknown_flags_2: usize,
    pub unknown_flags_3: usize,
    pub unknown_flags_4: usize,
    pub unknown_flags_5: usize,
    pub unknown_flags_6: usize,
}

impl<'a> NodeCollision<'a> {
    /// Tokens this record consumes past its base record.
    pub const EXTRA: usize = 7;

    /// Number of tokens consumed: the base record plus the fixed tail.
    pub open spec fn spec_size(self) -> int {
        self.base_node.spec_size() + 7
    }

    /// Number of tokens consumed, as `spec_size`.
    pub fn size(&self) -> (r: usize)
        requires
            self.spec_size() <= usize::MAX,
        ensures
            r == self.spec_size(),
    {
        self.base_node.size() + 7
    }

    /// Kind correctness of however much of the tail is present
    /// (`t` starts right after the base record).
    pub open spec fn spec_tail_prefix_ok(t: Seq<TkKind<'a>>) -> bool {
        &&& (0 < t.len() ==> t[0].is_int_kind())
        &&& (1 < t.len() ==> t[1].is_int_kind())
        &&& (2 < t.len() ==> t[2].is_int_kind())
        &&& (3 < t.len() ==> t[3].is_int_kind())
        &&& (4 < t.len() ==> t[4].is_int_kind())
        &&& (5 < t.len() ==> t[5].is_int_kind())
        &&& (6 < t.len() ==> t[6].is_int_kind())
    }

    /// The tail fits and every token it reads has the kind it expects.
    pub open spec fn spec_tail_wf(t: Seq<TkKind<'a>>) -> bool {
        &&& t.len() >= 7
        &&& t[0].is_int_kind()
        &&& t[1].is_int_kind()
        &&& t[2].is_int_kind()
        &&& t[3].is_int_kind()
        &&& t[4].is_int_kind()
        &&& t[5].is_int_kind()
        &&& t[6].is_int_kind()
    }

    /// The decoded record, given its base and its tail.
    pub open spec fn spec_value(b: BaseNode<'a>, t: Seq<TkKind<'a>>) -> NodeCollision<'a>
        recommends
            Self::spec_tail_wf(t),
    {
        (NodeCollision {
            base_node: b,
            unknown_flags_0: t[0].spec_int(),
            unknown_flags_1: t[1].spec_int(),
            unknown_flags_2: t[2].spec_int(),
            unknown_flags_3: t[3].spec_int(),
            unknown_flags_4: t[4].spec_int(),
            unknown_flags_5: t[5].spec_int(),
            unknown_flags_6: t[6].spec_int(),
        })
    }

    /// Decode of the fields this record adds past its base.
    pub open spec fn spec_decode_tail(b: BaseNode<'a>, t: Seq<TkKind<'a>>) -> Result<
        NodeCollision<'a>,
        Error,
    > {
        if !Self::spec_tail_prefix_ok(t) {
            Err(Error::InvalidTokenKind)
        } else if !Self::spec_tail_wf(t) {
            Err(Error::ParseError(ParseError::UnexpectedEnd))
        } else {
            Ok(Self::spec_value(b, t))
        }
    }

    /// What decoding yields: the base record, then the fixed tail.
    pub open spec fn spec_decode(s: Seq<TkKind<'a>>) -> Result<NodeCollision<'a>, Error> {
        match BaseNode::spec_decode(s) {
            Err(e) => Err(e),
            Ok(b) => Self::spec_decode_tail(b, s.skip(b.spec_size())),
        }
    }

    /// Decodes the record from the front of `tokens`, exactly as
    /// `spec_decode` describes it.
    pub fn from_tokens(tokens: &[TkKind<'a>]) -> (r: Result<Self, Error>)
        ensures
            r == Self::spec_decode(tokens@),
            r matches Ok(v) ==> v.spec_size() <= tokens@.len(),
    {
        let base_node = BaseNode::from_tokens(tokens)?;
        let blen = base_node.size();
        let n: usize = tokens.len();
        let t = vstd::slice::slice_subrange(tokens, blen, n);
        proof {
            assert(t@ =~= tokens@.skip(base_node.spec_size()));
        }
        let unknown_flags_0 = read_int(t, 0)?;
        let unknown_flags_1 = read_int(t, 1)?;
        let unknown_flags_2 = read_int(t, 2)?;
        let unknown_flags_3 = read_int(t, 3)?;
        let unknown_flags_4 = read_int(t, 4)?;
        let unknown_flags_5 = read_int(t, 5)?;
        let unknown_flags_6 = read_int(t, 6)?;
        Ok(NodeCollision {
            base_node,
            unknown_flags_0,
            unknown_flags_1,
            unknown_flags_2,
            unknown_flags_3,
            unknown_flags_4,
            unknown_flags_5,
            unknown_flags_6,
        })
    }
}


/// Unit projection of a decode outcome: which error, or that it succeeded.
pub open spec fn spec_outcome<T>(r: Result<T, Error>) -> Result<(), Error> {
    match r {
        Ok(_) => Ok(()),
        Err(e) => Err(e),
    }
}

/// The closed set of recognized node payloads. An unrecognized type name
/// degrades to `Dummy` (zero payload tokens), matching the entity-class
/// policy: a partially-understood format must still be walkable.
#[derive(Debug, PartialEq)]
pub enum Node<'a> {
    Simulation(NodeSimulation<'a>),
    Collision(NodeCollision<'a>),
    SimulationObject(SimulationObject<'a>),
    Controller(Controller<'a>),
    Camera(CameraNode<'a>),
    Effect(Effect<'a>),
    DecalSystem(DecalSystem<'a>),
    Dummy,
}

impl<'a> Node<'a> {
    /// Number of payload tokens this node consumed; `Dummy` consumed none.
    pub open spec fn spec_size(self) -> int {
        match self {
            Node::Simulation(x) => x.spec_size(),
            Node::Collision(x) => x.spec_size(),
            Node::SimulationObject(x) => x.spec_size(),
            Node::Controller(x) => x.size as int,
            Node::Camera(x) => x.spec_size(),
            Node::Effect(x) => x.spec_size(),
            Node::DecalSystem(x) => x.spec_size(),
            Node::Dummy => 0,
        }
    }

    /// Number of payload tokens consumed, as `spec_size`.
    pub fn size(&self) -> (r: usize)
        requires
            self.spec_size() <= usize::MAX,
        ensures
            r == self.spec_size(),
    {
        match self {
            Node::Simulation(x) => x.size(),
            Node::Collision(x) => x.size(),
            Node::SimulationObject(x) => x.size(),
            Node::Controller(x) => x.size(),
            Node::Camera(x) => x.size(),
            Node::Effect(x) => x.size(),
            Node::DecalSystem(x) => x.size(),
            Node::Dummy => 0,
        }
    }

    /// Whether dispatching `name` over `s` succeeds, and with which error it
    /// fails. Unrecognized names always succeed (they decode to `Dummy`).
    pub open spec fn spec_result(name: Seq<u8>, s: Seq<TkKind<'a>>) -> Result<(), Error> {
        if name == crate::fetm::names::spec_name_simulation() {
            spec_outcome(NodeSimulation::spec_decode(s))
        } else if name == crate::fetm::names::spec_name_collision_node() {
            spec_outcome(NodeCollision::spec_decode(s))
        } else if name == crate::fetm::names::spec_name_dummy() {
            Ok(())
        } else if name == crate::fetm::names::spec_name_simulation_object() {
            spec_outcome(SimulationObject::spec_decode(s))
        } else if name == crate::fetm::names::spec_name_controller() {
            spec_outcome(Controller::spec_result(s))
        } else if name == crate::fetm::names::spec_name_camera() {
            spec_outcome(CameraNode::spec_decode(s))
        } else if name == crate::fetm::names::spec_name_effect() {
            spec_outcome(Effect::spec_decode(s))
        } else if name == crate::fetm::names::spec_name_decalsystem() {
            spec_outcome(DecalSystem::spec_decode(s))
        } else {
            Ok(())
        }
    }

    /// This node is exactly what dispatching `name` over `s` yields.
    pub open spec fn spec_is_decode_of(self, name: Seq<u8>, s: Seq<TkKind<'a>>) -> bool {
        if name == crate::fetm::names::spec_name_simulation() {
            self matches Node::Simulation(x) && NodeSimulation::spec_decode(s)
                == Ok::<NodeSimulation<'a>, Error>(x)
        } else if name == crate::fetm::names::spec_name_collision_node() {
            self matches Node::Collision(x) && NodeCollision::spec_decode(s)
                == Ok::<NodeCollision<'a>, Error>(x)
        } else if name == crate::fetm::names::spec_name_dummy() {
            self == Node::<'a>::Dummy
        } else if name == crate::fetm::names::spec_name_simulation_object() {
            self matches Node::SimulationObject(x) && x.spec_is_decode_of(s)
        } else if name == crate::fetm::names::spec_name_controller() {
            self matches Node::Controller(x) && x.spec_is_decode_of(s)
        } else if name == crate::fetm::names::spec_name_camera() {
            self matches Node::Camera(x) && CameraNode::spec_decode(s) == Ok::<
                CameraNode<'a>,
                Error,
            >(x)
        } else if name == crate::fetm::names::spec_name_effect() {
            self matches Node::Effect(x) && Effect::spec_decode(s) == Ok::<Effect<'a>, Error>(x)
        } else if name == crate::fetm::names::spec_name_decalsystem() {
            self matches Node::DecalSystem(x) && DecalSystem::spec_decode(s) == Ok::<
                DecalSystem<'a>,
                Error,
            >(x)
        } else {
            self == Node::<'a>::Dummy
        }
    }

    /// Number of payload tokens the dispatch consumes at `s` under `name`,
    /// defined when `spec_result` succeeds. This is what a walk adds to its
    /// cursor to reach the next sibling.
    pub open spec fn spec_consumed(name: Seq<u8>, s: Seq<TkKind<'a>>) -> int
        recommends
            Self::spec_result(name, s) is Ok,
    {
        if name == crate::fetm::names::spec_name_simulation() {
            NodeSimulation::spec_decode(s).unwrap().spec_size()
        } else if name == crate::fetm::names::spec_name_collision_node() {
            NodeCollision::spec_decode(s).unwrap().spec_size()
        } else if name == crate::fetm::names::spec_name_dummy() {
            0
        } else if name == crate::fetm::names::spec_name_simulation_object() {
            crate::fetm::nodes::advanced_node::AdvancedNode::spec_decode(s).unwrap().spec_size()
                + 21 + 2 * crate::fetm::nodes::prop_node::PropNode::spec_decode(
                s,
            ).unwrap().len() as int + 1 + SimulationObject::spec_decode(s).unwrap().spec_len()
        } else if name == crate::fetm::names::spec_name_controller() {
            Controller::spec_result(s).unwrap()
        } else if name == crate::fetm::names::spec_name_camera() {
            CameraNode::spec_decode(s).unwrap().spec_size()
        } else if name == crate::fetm::names::spec_name_effect() {
            Effect::spec_decode(s).unwrap().spec_size()
        } else if name == crate::fetm::names::spec_name_decalsystem() {
            DecalSystem::spec_decode(s).unwrap().spec_size()
        } else {
            0
        }
    }

    /// Selects the payload decoder by the node-type name over the tokens
    /// following the world node's entity class.
    pub fn from_name(name: &[u8], tokens: &[TkKind<'a>]) -> (r: Result<Self, Error>)
        ensures
            r is Ok <==> Self::spec_result(name@, tokens@) is Ok,
            r matches Err(e) ==> Self::spec_result(name@, tokens@) == Err::<(), Error>(e),
            r matches Ok(v) ==> v.spec_is_decode_of(name@, tokens@),
            r matches Ok(v) ==> v.spec_size() <= tokens@.len(),
            r matches Ok(v) ==> v.spec_size() == Self::spec_consumed(name@, tokens@),
    {
        if crate::fetm::names::name_is_simulation(name) {
            Ok(Node::Simulation(NodeSimulation::from_sectors(tokens)?))
        } else if crate::fetm::names::name_is_collision_node(name) {
            Ok(Node::Collision(NodeCollision::from_tokens(tokens)?))
        } else if crate::fetm::names::name_is_dummy(name) {
            Ok(Node::Dummy)
        } else if crate::fetm::names::name_is_simulation_object(name) {
            Ok(Node::SimulationObject(SimulationObject::from_tokens(tokens)?))
        } else if crate::fetm::names::name_is_controller(name) {
            Ok(Node::Controller(Controller::from_tokens(tokens)?))
        } else if crate::fetm::names::name_is_camera(name) {
            Ok(Node::Camera(CameraNode::from_tokens(tokens)?))
        } else if crate::fetm::names::name_is_effect(name) {
            Ok(Node::Effect(Effect::from_tokens(tokens)?))
        } else if crate::fetm::names::name_is_decalsystem(name) {
            Ok(Node::DecalSystem(DecalSystem::from_tokens(tokens)?))
        } else {
            Ok(Node::Dummy)
        }
    }
}

/// One entry of a level's object forest: its type name, its instance name,
/// its optional entity class and its type-specific payload. Its length is
/// `2 + entity_class.len() + node.size()`, the additivity law every walk
/// depends on.
#[derive(Debug, PartialEq)]
pub struct WorldNode<'a> {
    pub node_type: &'a [u8],
    pub node_name: &'a [u8],
    pub entity_class: EntityClass<'a>,
    pub node: Node<'a>,
}

impl<'a> WorldNode<'a> {
    /// Number of tokens consumed: the two name tokens, the entity class and
    /// the node payload.
    pub open spec fn spec_len(self) -> int {
        2 + self.entity_class.spec_len() + self.node.spec_size()
    }

    /// Number of tokens consumed, as `spec_len`.
    pub fn len(&self) -> (r: usize)
        requires
            self.spec_len() <= usize::MAX,
        ensures
            r == self.spec_len(),
    {
        2 + self.entity_class.len() + self.node.size()
    }

    /// Whether decoding a world node from `s` succeeds, and with which
    /// error it fails.
    pub open spec fn spec_result(s: Seq<TkKind<'a>>) -> Result<(), Error> {
        if s.len() < 1 {
            Err(Error::ParseError(ParseError::UnexpectedEnd))
        } else if !s[0].is_str_kind() {
            Err(Error::InvalidTokenKind)
        } else if s.len() < 2 {
            Err(Error::ParseError(ParseError::UnexpectedEnd))
        } else if !s[1].is_str_kind() {
            Err(Error::InvalidTokenKind)
        } else {
            match EntityClass::spec_decode(s.skip(2)) {
                Err(e) => Err(e),
                Ok(c) => Node::spec_result(s[0].spec_str(), s.skip(2 + c.spec_len())),
            }
        }
    }

    /// This world node is exactly what decoding `s` yields.
    pub open spec fn spec_is_decode_of(self, s: Seq<TkKind<'a>>) -> bool {
        &&& s.len() >= 2
        &&& s[0].is_str_kind()
        &&& s[1].is_str_kind()
        &&& self.node_type == s[0].spec_str_ref()
        &&& self.node_name == s[1].spec_str_ref()
        &&& EntityClass::spec_decode(s.skip(2)) == Ok::<EntityClass<'a>, Error>(
            self.entity_class,
        )
        &&& self.node.spec_is_decode_of(
            s[0].spec_str(),
            s.skip(2 + self.entity_class.spec_len()),
        )
    }

    /// Number of tokens a decodable world node at the front of `s`
    /// consumes: the two name tokens, the entity class span, and whatever
    /// the payload dispatch consumed.
    pub open spec fn spec_consumed(s: Seq<TkKind<'a>>) -> int
        recommends
            Self::spec_result(s) is Ok,
    {
        let c = EntityClass::spec_decode(s.skip(2)).unwrap();
        2 + c.spec_len() + Node::spec_consumed(s[0].spec_str(), s.skip(2 + c.spec_len()))
    }

    /// Decodes one world node: the type and instance names, the entity
    /// class, then the payload selected by the type name.
    pub fn from_tokens(tokens: &[TkKind<'a>]) -> (r: Result<Self, Error>)
        ensures
            r is Ok <==> Self::spec_result(tokens@) is Ok,
            r matches Err(e) ==> Self::spec_result(tokens@) == Err::<(), Error>(e),
            r matches Ok(v) ==> v.spec_is_decode_of(tokens@),
            r matches Ok(v) ==> v.spec_len() <= tokens@.len(),
            r matches Ok(v) ==> v.spec_len() == Self::spec_consumed(tokens@),
    {
        let node_type = read_str(tokens, 0)?;
        let node_name = read_str(tokens, 1)?;
        let n: usize = tokens.len();
        let ec_tokens = vstd::slice::slice_subrange(tokens, 2, n);
        proof {
            assert(ec_tokens@ =~= tokens@.skip(2));
            lemma_entity_class_fits(ec_tokens@);
        }
        let entity_class = EntityClass::from_tokens(ec_tokens)?;
        let el = entity_class.len();
        let node_tokens = vstd::slice::slice_subrange(tokens, 2 + el, n);
        proof {
            assert(node_tokens@ =~= tokens@.skip(2 + entity_class.spec_len()));
        }
        let node = Node::from_name(node_type, node_tokens)?;
        Ok(WorldNode { node_type, node_name, entity_class, node })
    }
}

/// Additivity law: a world node's length is the two name tokens plus its
/// entity class plus its node payload, each reported by the part itself.
pub proof fn lemma_world_node_length_law(w: WorldNode)
    ensures
        w.spec_len() == 2 + w.entity_class.spec_len() + w.node.spec_size(),
{
}


/// One sector of a level: its name, its entity class, then the fixed run of
/// fog, blend and flip fields, and finally the three size/offset integers
/// that are the caller's only means of locating the world-node forest that
/// follows.
#[derive(Debug, PartialEq)]
pub struct Sector<'a> {
    pub name: &'a [u8],
    pub entity_class: EntityClass<'a>,
    pub sector_name: &'a [u8],
    pub unknown_0: usize,
    pub unknown_1: usize,
    pub unknown_2: usize,
    pub fog_r: usize,
    pub fog_g: usize,
    pub fog_b: usize,
    pub fog_near_dist: u32,
    pub fog_far_dist: u32,
    pub fog_intensity: u32,
    pub flip_r: usize,
    pub flip_g: usize,
    pub flip_b: usize,
    pub flip_a: usize,
    pub one_x: u32,
    pub one_y: u32,
    pub one_z: u32,
    pub two_x: u32,
    pub two_y: u32,
    pub two_z: u32,
    pub node_sprite_batch_size: usize,
    pub first_node_offset: usize,
    pub node_list_size: usize,
    pub flags: u32,
}

impl<'a> Sector<'a> {
    /// Tokens the fixed tail past the entity class consumes.
    pub const TAIL: usize = 36;

    /// Number of tokens consumed: the name, the entity class, the tail.
    pub open spec fn spec_len(self) -> int {
        1 + self.entity_class.spec_len() + 36
    }

    /// Number of tokens consumed, as `spec_len`.
    pub fn len(&self) -> (r: usize)
        requires
            self.spec_len() <= usize::MAX,
        ensures
            r == self.spec_len(),
    {
        1 + self.entity_class.len() + 36
    }

    /// Kind correctness of however much of the tail is present (`w` starts
    /// right after the entity class).
    pub open spec fn spec_tail_prefix_ok(w: Seq<TkKind<'a>>) -> bool {
        &&& (0 < w.len() ==> w[0].is_str_kind())
        &&& (1 < w.len() ==> w[1].is_int_kind())
        &&& (2 < w.len() ==> w[2].is_int_kind())
        &&& (3 < w.len() ==> w[3].is_int_kind())
        &&& (4 < w.len() ==> w[4].is_int_kind())
        &&& (5 < w.len() ==> w[5].is_int_kind())
        &&& (6 < w.len() ==> w[6].is_int_kind())
        &&& (7 < w.len() ==> w[7].is_int_kind())
        &&& (8 < w.len() ==> w[8].is_int_kind())
        &&& (9 < w.len() ==> w[9].is_float_kind())
        &&& (10 < w.len() ==> w[10].is_float_kind())
        &&& (11 < w.len() ==> w[11].is_float_kind())
        &&& (12 < w.len() ==> w[12].is_int_kind())
        &&& (13 < w.len() ==> w[13].is_int_kind())
        &&& (14 < w.len() ==> w[14].is_int_kind())
        &&& (15 < w.len() ==> w[15].is_int_kind())
        &&& (16 < w.len() ==> w[16].is_int_kind())
        &&& (17 < w.len() ==> w[17].is_int_kind())
        &&& (18 < w.len() ==> w[18].is_int_kind())
        &&& (19 < w.len() ==> w[19].is_int_kind())
        &&& (20 < w.len() ==> w[20].is_int_kind())
        &&& (21 < w.len() ==> w[21].is_int_kind())
        &&& (22 < w.len() ==> w[22].is_int_kind())
        &&& (23 < w.len() ==> w[23].is_int_kind())
        &&& (24 < w.len() ==> w[24].is_int_kind())
        &&& (25 < w.len() ==> w[25].is_int_kind())
        &&& (26 < w.len() ==> w[26].is_int_kind())
        &&& (27 < w.len() ==> w[27].is_float_kind())
        &&& (28 < w.len() ==> w[28].is_float_kind())
        &&& (29 < w.len() ==> w[29].is_float_kind())
        &&& (30 < w.len() ==> w[30].is_float_kind())
        &&& (31 < w.len() ==> w[31].is_float_kind())
        &&& (32 < w.len() ==> w[32].is_float_kind())
        &&& (33 < w.len() ==> w[33].is_int_kind())
        &&& (34 < w.len() ==> w[34].is_int_kind())
        &&& (35 < w.len() ==> w[35].is_int_kind())
    }

    /// The tail fits and every token it reads has the kind it expects.
    pub open spec fn spec_tail_wf(w: Seq<TkKind<'a>>) -> bool {
        &&& w.len() >= 36
        &&& w[0].is_str_kind()
        &&& w[1].is_int_kind()
        &&& w[2].is_int_kind()
        &&& w[3].is_int_kind()
        &&& w[4].is_int_kind()
        &&& w[5].is_int_kind()
        &&& w[6].is_int_kind()
        &&& w[7].is_int_kind()
        &&& w[8].is_int_kind()
        &&& w[9].is_float_kind()
        &&& w[10].is_float_kind()
        &&& w[11].is_float_kind()
        &&& w[12].is_int_kind()
        &&& w[13].is_int_kind()
        &&& w[14].is_int_kind()
        &&& w[15].is_int_kind()
        &&& w[16].is_int_kind()
        &&& w[17].is_int_kind()
        &&& w[18].is_int_kind()
        &&& w[19].is_int_kind()
        &&& w[20].is_int_kind()
        &&& w[21].is_int_kind()
        &&& w[22].is_int_kind()
        &&& w[23].is_int_kind()
        &&& w[24].is_int_kind()
        &&& w[25].is_int_kind()
        &&& w[26].is_int_kind()
        &&& w[27].is_float_kind()
        &&& w[28].is_float_kind()
        &&& w[29].is_float_kind()
        &&& w[30].is_float_kind()
        &&& w[31].is_float_kind()
        &&& w[32].is_float_kind()
        &&& w[33].is_int_kind()
        &&& w[34].is_int_kind()
        &&& w[35].is_int_kind()
    }

    /// The packed sector flags word, one stored token per bit.
    pub open spec fn spec_flags(w: Seq<TkKind<'a>>) -> u32 {
        crate::fetm::layout::spec_set_bit(
            crate::fetm::layout::spec_set_bit(
            crate::fetm::layout::spec_set_bit(
            crate::fetm::layout::spec_set_bit(
            crate::fetm::layout::spec_set_bit(
            crate::fetm::layout::spec_set_bit(
            crate::fetm::layout::spec_set_bit(
            crate::fetm::layout::spec_set_bit(
            crate::fetm::layout::spec_set_bit(
            crate::fetm::layout::spec_set_bit(
            crate::fetm::layout::spec_set_bit(
            crate::fetm::layout::spec_set_bit(
            crate::fetm::layout::spec_set_bit(
            0u32,
            0x1E,
            w[4].spec_int(),
        ),
            0x1D,
            w[5].spec_int(),
        ),
            0x1F,
            w[12].spec_int(),
        ),
            0x1B,
            w[17].spec_int(),
        ),
            0x1A,
            w[18].spec_int(),
        ),
            0x17,
            w[19].spec_int(),
        ),
            0x16,
            w[20].spec_int(),
        ),
            0x15,
            w[21].spec_int(),
        ),
            0x13,
            w[22].spec_int(),
        ),
            0x14,
            w[23].spec_int(),
        ),
            0x11,
            w[24].spec_int(),
        ),
            0x12,
            w[25].spec_int(),
        ),
            0x10,
            w[26].spec_int(),
        )
    }

    /// The decoded sector, given its name token, its class and its tail.
    pub open spec fn spec_value(nm: &'a [u8], c: EntityClass<'a>, w: Seq<TkKind<'a>>) -> Sector<
        'a,
    >
        recommends
            Self::spec_tail_wf(w),
    {
        (Sector {
            name: nm,
            entity_class: c,
            sector_name: w[0].spec_str_ref(),
            unknown_0: w[1].spec_int(),
            unknown_1: w[2].spec_int(),
            unknown_2: w[3].spec_int(),
            fog_r: w[6].spec_int(),
            fog_g: w[7].spec_int(),
            fog_b: w[8].spec_int(),
            fog_near_dist: w[9].spec_float_bits(),
            fog_far_dist: w[10].spec_float_bits(),
            fog_intensity: w[11].spec_float_bits(),
            flip_r: w[13].spec_int(),
            flip_g: w[14].spec_int(),
            flip_b: w[15].spec_int(),
            flip_a: w[16].spec_int(),
            one_x: w[27].spec_float_bits(),
            one_y: w[28].spec_float_bits(),
            one_z: w[29].spec_float_bits(),
            two_x: w[30].spec_float_bits(),
            two_y: w[31].spec_float_bits(),
            two_z: w[32].spec_float_bits(),
            node_sprite_batch_size: w[33].spec_int(),
            first_node_offset: w[34].spec_int(),
            node_list_size: w[35].spec_int(),
            flags: Self::spec_flags(w),
        })
    }

    /// What decoding yields on any token slice.
    pub open spec fn spec_decode(s: Seq<TkKind<'a>>) -> Result<Sector<'a>, Error> {
        if s.len() < 1 {
            Err(Error::ParseError(ParseError::UnexpectedEnd))
        } else if !s[0].is_str_kind() {
            Err(Error::InvalidTokenKind)
        } else {
            match EntityClass::spec_decode(s.skip(1)) {
                Err(e) => Err(e),
                Ok(c) => {
                    let w = s.skip(1 + c.spec_len());
                    if !Self::spec_tail_prefix_ok(w) {
                        Err(Error::InvalidTokenKind)
                    } else if !Self::spec_tail_wf(w) {
                        Err(Error::ParseError(ParseError::UnexpectedEnd))
                    } else {
                        Ok(Self::spec_value(s[0].spec_str_ref(), c, w))
                    }
                },
            }
        }
    }

    /// Decodes the sector from the front of `tokens`, exactly as
    /// `spec_decode` describes it.
    pub fn from_tokens(tokens: &[TkKind<'a>]) -> (r: Result<Self, Error>)
        ensures
            r == Self::spec_decode(tokens@),
            r matches Ok(v) ==> v.spec_len() <= tokens@.len(),
    {
        let name = read_str(tokens, 0)?;
        let n: usize = tokens.len();
        let ec_tokens = vstd::slice::slice_subrange(tokens, 1, n);
        proof {
            assert(ec_tokens@ =~= tokens@.skip(1));
            lemma_entity_class_fits(ec_tokens@);
        }
        let entity_class = EntityClass::from_tokens(ec_tokens)?;
        let el = entity_class.len();
        let w = vstd::slice::slice_subrange(tokens, 1 + el, n);
        proof {
            assert(w@ =~= tokens@.skip(1 + entity_class.spec_len()));
        }
        let sector_name = read_str(w, 0)?;
        let unknown_0 = read_int(w, 1)?;
        let unknown_1 = read_int(w, 2)?;
        let unknown_2 = read_int(w, 3)?;
        let b30 = read_int(w, 4)?;
        let b29 = read_int(w, 5)?;
        let fog_r = read_int(w, 6)?;
        let fog_g = read_int(w, 7)?;
        let fog_b = read_int(w, 8)?;
        let fog_near_dist = read_float(w, 9)?;
        let fog_far_dist = read_float(w, 10)?;
        let fog_intensity = read_float(w, 11)?;
        let b31 = read_int(w, 12)?;
        let flip_r = read_int(w, 13)?;
        let flip_g = read_int(w, 14)?;
        let flip_b = read_int(w, 15)?;
        let flip_a = read_int(w, 16)?;
        let b27 = read_int(w, 17)?;
        let b26 = read_int(w, 18)?;
        let b23 = read_int(w, 19)?;
        let b22 = read_int(w, 20)?;
        let b21 = read_int(w, 21)?;
        let b19 = read_int(w, 22)?;
        let b20 = read_int(w, 23)?;
        let b17 = read_int(w, 24)?;
        let b18 = read_int(w, 25)?;
        let b16 = read_int(w, 26)?;
        let one_x = read_float(w, 27)?;
        let one_y = read_float(w, 28)?;
        let one_z = read_float(w, 29)?;
        let two_x = read_float(w, 30)?;
        let two_y = read_float(w, 31)?;
        let two_z = read_float(w, 32)?;
        let node_sprite_batch_size = read_int(w, 33)?;
        let first_node_offset = read_int(w, 34)?;
        let node_list_size = read_int(w, 35)?;
        let flags = crate::fetm::layout::set_bit(crate::fetm::layout::set_bit(crate::fetm::layout::set_bit(crate::fetm::layout::set_bit(crate::fetm::layout::set_bit(crate::fetm::layout::set_bit(crate::fetm::layout::set_bit(crate::fetm::layout::set_bit(crate::fetm::layout::set_bit(crate::fetm::layout::set_bit(crate::fetm::layout::set_bit(crate::fetm::layout::set_bit(crate::fetm::layout::set_bit(0u32, 0x1E, b30), 0x1D, b29), 0x1F, b31), 0x1B, b27), 0x1A, b26), 0x17, b23), 0x16, b22), 0x15, b21), 0x13, b19), 0x14, b20), 0x11, b17), 0x12, b18), 0x10, b16);
        Ok(Sector {
            name,
            entity_class,
            sector_name,
            unknown_0,
            unknown_1,
            unknown_2,
            fog_r,
            fog_g,
            fog_b,
            fog_near_dist,
            fog_far_dist,
            fog_intensity,
            flip_r,
            flip_g,
            flip_b,
            flip_a,
            one_x,
            one_y,
            one_z,
            two_x,
            two_y,
            two_z,
            node_sprite_batch_size,
            first_node_offset,
            node_list_size,
            flags,
        })
    }
}


impl<'a> EntityClassHeader<'a> {
    /// A header value can be written back as tokens when its fields fit
    /// their token widths and the degenerate form carries no leftovers.
    pub open spec fn encodable(self) -> bool {
        &&& self.runtime_id <= u32::MAX
        &&& self.content_crc <= u32::MAX
        &&& self.class_size <= u32::MAX
        &&& (self.name@ == crate::fetm::names::spec_name_noentclass() ==> !self.has_entity_class
            && self.runtime_id == 0 && self.content_crc == 0 && self.class_size == 0)
    }

    /// The token run that decodes back to this header.
    pub open spec fn spec_encode(self) -> Seq<TkKind<'a>> {
        if self.name@ == crate::fetm::names::spec_name_noentclass() {
            seq![TkKind::Str(self.name)]
        } else {
            seq![
                TkKind::Str(self.name),
                TkKind::U8(
                    if self.has_entity_class {
                        1u8
                    } else {
                        0u8
                    },
                ),
                TkKind::U32(self.runtime_id as u32),
                TkKind::Hex8(self.content_crc as u32),
                TkKind::U32(self.class_size as u32),
            ]
        }
    }

    /// Test-only encoder, as `spec_encode`.
    pub fn to_tokens(&self) -> (r: Vec<TkKind<'a>>)
        ensures
            r@ == self.spec_encode(),
    {
        let mut out: Vec<TkKind<'a>> = Vec::new();
        out.push(TkKind::Str(self.name));
        if !crate::fetm::names::name_is_noentclass(self.name) {
            out.push(
                TkKind::U8(
                    if self.has_entity_class {
                        1
                    } else {
                        0
                    },
                ),
            );
            out.push(TkKind::U32(self.runtime_id as u32));
            out.push(TkKind::Hex8(self.content_crc as u32));
            out.push(TkKind::U32(self.class_size as u32));
        }
        proof {
            assert(out@ =~= self.spec_encode());
        }
        out
    }
}

/// Round trip: decoding the encoding of any encodable header yields exactly
/// that header, whatever tokens follow it.
pub proof fn lemma_header_round_trip(h: EntityClassHeader, rest: Seq<TkKind>)
    requires
        h.encodable(),
    ensures
        EntityClassHeader::spec_decode(h.spec_encode() + rest) == Ok::<EntityClassHeader, Error>(
            h,
        ),
{
    let d = h.spec_encode() + rest;
    assert(d[0] == TkKind::Str(h.name));
    if h.name@ != crate::fetm::names::spec_name_noentclass() {
        assert(d[1] == h.spec_encode()[1]);
        assert(d[2] == h.spec_encode()[2]);
        assert(d[3] == h.spec_encode()[3]);
        assert(d[4] == h.spec_encode()[4]);
        assert((h.runtime_id as u32) as usize == h.runtime_id);
        assert((h.content_crc as u32) as usize == h.content_crc);
        assert((h.class_size as u32) as usize == h.class_size);
    }
}


/// The sector reads only its own span.
pub proof fn lemma_sector_prefix_stable(s: Seq<TkKind>, k: int)
    requires
        Sector::spec_decode(s) matches Ok(v) && v.spec_len() <= k <= s.len(),
    ensures
        Sector::spec_decode(s.take(k)) == Sector::spec_decode(s),
{
    let v = Sector::spec_decode(s).unwrap();
    let c = v.entity_class;
    let t = s.take(k);
    assert(forall|i: int| 0 <= i < k ==> t[i] == s[i]);
    assert(t.skip(1) =~= s.skip(1).take(k - 1));
    lemma_entity_class_prefix_stable(s.skip(1), k - 1);
    assert(t.skip(1 + c.spec_len()) =~= s.skip(1 + c.spec_len()).take(k - 1 - c.spec_len()));
    let w = s.skip(1 + c.spec_len());
    let wt = t.skip(1 + c.spec_len());
    assert(forall|i: int| 0 <= i < k - 1 - c.spec_len() ==> wt[i] == w[i]);
    assert(Sector::spec_value(t[0].spec_str_ref(), c, wt) == Sector::spec_value(
        s[0].spec_str_ref(),
        c,
        w,
    ));
}

/// Truncation safety for the sector: a strict prefix of a decodable sector
/// fails with `UnexpectedEnd`, never anything else.
pub proof fn lemma_sector_truncation(s: Seq<TkKind>, k: int)
    requires
        Sector::spec_decode(s) matches Ok(v) && 0 <= k < v.spec_len(),
    ensures
        Sector::spec_decode(s.take(k)) == Err::<Sector, Error>(
            Error::ParseError(ParseError::UnexpectedEnd),
        ),
{
    let v = Sector::spec_decode(s).unwrap();
    let c = v.entity_class;
    let t = s.take(k);
    assert(forall|i: int| 0 <= i < k ==> t[i] == s[i]);
    if k == 0 {
    } else {
        assert(t.skip(1) =~= s.skip(1).take(k - 1));
        if k - 1 < c.spec_len() {
            lemma_entity_class_truncation(s.skip(1), k - 1);
        } else {
            lemma_entity_class_prefix_stable(s.skip(1), k - 1);
            let w = s.skip(1 + c.spec_len());
            let wt = t.skip(1 + c.spec_len());
            assert(wt =~= w.take(k - 1 - c.spec_len()));
            assert(forall|i: int| 0 <= i < k - 1 - c.spec_len() ==> wt[i] == w[i]);
        }
    }
}


/// Where a walk of `count` world nodes starting at position `p` ends, or
/// its first failure. Each step can only be found by decoding the node at
/// the cursor and adding that node's own consumed length: the format stores
/// no offsets.
pub open spec fn spec_walk(s: Seq<TkKind>, p: int, count: int) -> Result<int, Error>
    decreases count,
{
    if count <= 0 {
        Ok(p)
    } else {
        match WorldNode::spec_result(s.skip(p)) {
            Err(e) => Err(e),
            Ok(u) => {
                let w = WorldNode::spec_consumed(s.skip(p));
                if 0 <= w && p + w <= s.len() {
                    spec_walk(s, p + w, count - 1)
                } else {
                    Err(Error::ParseError(ParseError::UnexpectedEnd))
                }
            },
        }
    }
}

/// The positions of a decoded node run inside `s`: node `j` starts at
/// `offs[j]`, is exactly the decode of the tokens from its own offset, and
/// the offsets advance by each node's reported length.
pub open spec fn world_nodes_layout<'a>(
    ns: Seq<WorldNode<'a>>,
    s: Seq<TkKind<'a>>,
    offs: Seq<int>,
) -> bool {
    &&& offs.len() == ns.len() + 1
    &&& forall|j: int| 0 <= j < ns.len() ==> #[trigger] offs[j + 1] == offs[j] + ns[j].spec_len()
    &&& forall|j: int| 0 <= j < ns.len() ==> 0 <= #[trigger] offs[j] <= s.len()
    &&& forall|j: int|
        0 <= j < ns.len() ==> (#[trigger] ns[j]).spec_is_decode_of(s.skip(offs[j]))
}

/// Walks `count` consecutive world nodes from token position `start`,
/// locating each sibling by adding the previous node's own length. This is
/// the walk a sector's `node_list_size` prescribes: on success exactly
/// `count` nodes were decoded, laid end to end from `start`, and the
/// returned cursor is where the walk stopped.
#[verifier::loop_isolation(false)]
#[verifier::rlimit(100)]
#[verifier::spinoff_prover]
pub fn decode_world_nodes<'a>(tokens: &[TkKind<'a>], start: usize, count: usize) -> (r: Result<
    (Vec<WorldNode<'a>>, usize),
    Error,
>)
    requires
        start <= tokens@.len(),
    ensures
        r is Ok <==> spec_walk(tokens@, start as int, count as int) is Ok,
        r matches Err(e) ==> spec_walk(tokens@, start as int, count as int) == Err::<int, Error>(
            e,
        ),
        r matches Ok(p) ==> p.0@.len() == count && spec_walk(tokens@, start as int, count as int)
            == Ok::<int, Error>(p.1 as int) && p.1 <= tokens@.len(),
        r matches Ok(p) ==> exists|offs: Seq<int>|
            world_nodes_layout(p.0@, tokens@, offs) && offs[0] == start && offs[
                p.0@.len() as int
            ] == p.1,
{
    let n: usize = tokens.len();
    let mut nodes: Vec<WorldNode<'a>> = Vec::new();
    let mut pos: usize = start;
    let mut i: usize = 0;
    let ghost mut offs: Seq<int> = seq![start as int];
    while i < count
        invariant
            i <= count,
            nodes@.len() == i,
            start <= pos <= n,
            offs.len() == i + 1,
            offs[0] == start as int,
            offs[i as int] == pos as int,
            forall|j: int| 0 <= j < i ==> #[trigger] offs[j + 1] == offs[j] + nodes@[j].spec_len(),
            forall|j: int| 0 <= j < i ==> 0 <= #[trigger] offs[j] <= tokens@.len(),
            forall|j: int|
                0 <= j < i ==> (#[trigger] nodes@[j]).spec_is_decode_of(tokens@.skip(offs[j])),
            spec_walk(tokens@, pos as int, count - i) matches Ok(q) ==> spec_walk(
                tokens@,
                start as int,
                count as int,
            ) == Ok::<int, Error>(q),
            spec_walk(tokens@, pos as int, count - i) matches Err(e) ==> spec_walk(
                tokens@,
                start as int,
                count as int,
            ) == Err::<int, Error>(e),
        decreases count - i,
    {
        let sub = vstd::slice::slice_subrange(tokens, pos, n);
        proof {
            assert(sub@ =~= tokens@.skip(pos as int));
        }
        let node = match WorldNode::from_tokens(sub) {
            Ok(x) => x,
            Err(e) => {
                return Err(e);
            },
        };
        let w = node.len();
        proof {
            offs = offs.push(pos as int + w);
        }
        nodes.push(node);
        pos = pos + w;
        i = i + 1;
    }
    let ghost fin = offs;
    proof {
        assert(world_nodes_layout(nodes@, tokens@, fin));
    }
    Ok((nodes, pos))
}

} // verus!
