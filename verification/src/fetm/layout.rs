//! Checked, position-indexed token reads.
//!
//! Every structured decoder reads its fields at known token indices. These
//! helpers make each read total: a missing token is `UnexpectedEnd`, a token
//! of the wrong primitive kind is `InvalidTokenKind`, and nothing ever
//! panics. The three ensures clauses of each helper cover all cases, so a
//! decoder's own contract can classify its errors exactly.
use crate::fetm::{Error, TkKind};
use crate::ParseError;
use vstd::prelude::*;

verus! {

broadcast use vstd::slice::axiom_spec_len;

/// Reads the token at `i` as an integer.
pub fn read_int(tokens: &[TkKind], i: usize) -> (r: Result<usize, Error>)
    ensures
        i < tokens@.len() && tokens@[i as int].is_int_kind() ==> r == Ok::<usize, Error>(
            tokens@[i as int].spec_int(),
        ),
        i >= tokens@.len() ==> r == Err::<usize, Error>(
            Error::ParseError(ParseError::UnexpectedEnd),
        ),
        i < tokens@.len() && !tokens@[i as int].is_int_kind() ==> r == Err::<usize, Error>(
            Error::InvalidTokenKind,
        ),
{
    if i < tokens.len() {
        vstd::slice::slice_index_get(tokens, i).extract_int()
    } else {
        Err(Error::ParseError(ParseError::UnexpectedEnd))
    }
}

/// Reads the token at `i` as a float, yielding its bit pattern.
pub fn read_float(tokens: &[TkKind], i: usize) -> (r: Result<u32, Error>)
    ensures
        i < tokens@.len() && tokens@[i as int].is_float_kind() ==> r == Ok::<u32, Error>(
            tokens@[i as int].spec_float_bits(),
        ),
        i >= tokens@.len() ==> r == Err::<u32, Error>(
            Error::ParseError(ParseError::UnexpectedEnd),
        ),
        i < tokens@.len() && !tokens@[i as int].is_float_kind() ==> r == Err::<u32, Error>(
            Error::InvalidTokenKind,
        ),
{
    if i < tokens.len() {
        vstd::slice::slice_index_get(tokens, i).extract_float()
    } else {
        Err(Error::ParseError(ParseError::UnexpectedEnd))
    }
}

/// Reads the token at `i` as a hex-kind identifier.
pub fn read_hex(tokens: &[TkKind], i: usize) -> (r: Result<usize, Error>)
    ensures
        i < tokens@.len() && tokens@[i as int].is_hex_kind() ==> r == Ok::<usize, Error>(
            tokens@[i as int].spec_hex(),
        ),
        i >= tokens@.len() ==> r == Err::<usize, Error>(
            Error::ParseError(ParseError::UnexpectedEnd),
        ),
        i < tokens@.len() && !tokens@[i as int].is_hex_kind() ==> r == Err::<usize, Error>(
            Error::InvalidTokenKind,
        ),
{
    if i < tokens.len() {
        vstd::slice::slice_index_get(tokens, i).extract_hex8()
    } else {
        Err(Error::ParseError(ParseError::UnexpectedEnd))
    }
}

/// Reads the token at `i` as a string, yielding the payload bytes.
pub fn read_str<'a>(tokens: &[TkKind<'a>], i: usize) -> (r: Result<&'a [u8], Error>)
    ensures
        i < tokens@.len() && tokens@[i as int].is_str_kind() ==> r == Ok::<&'a [u8], Error>(
            tokens@[i as int].spec_str_ref(),
        ),
        i >= tokens@.len() ==> r == Err::<&'a [u8], Error>(
            Error::ParseError(ParseError::UnexpectedEnd),
        ),
        i < tokens@.len() && !tokens@[i as int].is_str_kind() ==> r == Err::<&'a [u8], Error>(
            Error::InvalidTokenKind,
        ),
{
    if i < tokens.len() {
        vstd::slice::slice_index_get(tokens, i).extract_str()
    } else {
        Err(Error::ParseError(ParseError::UnexpectedEnd))
    }
}

/// Content equality of two byte slices.
pub fn bytes_eq(a: &[u8], b: &[u8]) -> (r: bool)
    ensures
        r <==> a@ == b@,
{
    if a.len() != b.len() {
        proof {
            assert(a@ != b@);
        }
        return false;
    }
    let n: usize = a.len();
    let mut i: usize = 0;
    while i < n
        invariant
            i <= n,
            n == a@.len(),
            n == b@.len(),
            forall|k: int| 0 <= k < i ==> a@[k] == b@[k],
        decreases n - i,
    {
        if *vstd::slice::slice_index_get(a, i) != *vstd::slice::slice_index_get(b, i) {
            proof {
                assert(a@ != b@);
            }
            return false;
        }
        i = i + 1;
    }
    proof {
        assert(a@ =~= b@);
    }
    true
}


/// Bit `sh` of `f` set to the low bit of the token value `v`, every other
/// bit kept. This is the one packing step the flag-word decoders use.
pub open spec fn spec_set_bit(f: u32, sh: u32, v: usize) -> u32
    recommends
        sh < 32,
{
    (((v & 1) as u32) << sh) | (f & !(1u32 << sh))
}

/// Sets bit `sh` of `f` to the low bit of `v`, as `spec_set_bit`.
pub fn set_bit(f: u32, sh: u32, v: usize) -> (r: u32)
    requires
        sh < 32,
    ensures
        r == spec_set_bit(f, sh, v),
{
    (((v & 1) as u32) << sh) | (f & !(1u32 << sh))
}

} // verus!

