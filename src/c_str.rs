//! Checks and conversions applied to arguments before they reach the host.
use vstd::prelude::*;
use vstd::string::StringSliceAdditionalSpecFns;
use crate::error::{ArgumentError, HttpError};

verus! {

/// `b` holds a zero byte somewhere.
pub open spec fn has_nul(b: Seq<u8>) -> bool {
    exists|i: int| 0 <= i < b.len() && b[i] == 0u8
}

/// `p` is the position of the first zero byte of `b`.
pub open spec fn first_nul_at(b: Seq<u8>, p: int) -> bool {
    &&& 0 <= p < b.len()
    &&& b[p] == 0u8
    &&& forall|j: int| 0 <= j < p ==> b[j] != 0u8
}

/// `e` refuses `b` for the zero byte that it holds, naming the first one.
pub open spec fn refused_at_nul(b: Seq<u8>, e: HttpError) -> bool {
    has_nul(b) && exists|p: usize|
        first_nul_at(b, p as int) && e == HttpError::Argument(
            ArgumentError::EmbeddedNul { position: p },
        )
}

/// The nul-terminated form of `s`, or the position of its first zero byte.
pub open spec fn c_string_outcome(s: Seq<u8>, r: Result<Vec<u8>, HttpError>) -> bool {
    match r {
        Ok(v) => !has_nul(s) && v@ == s.push(0u8),
        Err(e) => refused_at_nul(s, e),
    }
}

/// Relies on `cstr_core::CString::new`: it refuses bytes that hold a zero,
/// reporting the first one, and otherwise appends one zero byte, which
/// `into_bytes_with_nul` hands back with the rest.
#[verifier::external_body]
fn c_string_new(s: &str) -> (r: Result<Vec<u8>, usize>)
    ensures
        match r {
            Ok(v) => !has_nul(s.spec_bytes()) && v@ == s.spec_bytes().push(0u8),
            Err(p) => first_nul_at(s.spec_bytes(), p as int),
        },
{
    match cstr_core::CString::new(s) {
        Ok(c) => Ok(c.into_bytes_with_nul()),
        Err(e) => Err(e.nul_position()),
    }
}

/// The bytes of `s` followed by one zero byte; refused where `s` itself holds one.
pub fn to_c_string(s: &str) -> (r: Result<Vec<u8>, HttpError>)
    ensures
        c_string_outcome(s.spec_bytes(), r),
{
    match c_string_new(s) {
        Ok(v) => Ok(v),
        Err(p) => Err(HttpError::Argument(ArgumentError::EmbeddedNul { position: p })),
    }
}

/// `to_c_string` applied to a text that may be absent.
pub fn optional_cstring(value: Option<&str>) -> (r: Result<Option<Vec<u8>>, HttpError>)
    ensures
        match value {
            None => r == Ok::<Option<Vec<u8>>, HttpError>(None),
            Some(s) => match r {
                Ok(Some(v)) => c_string_outcome(s.spec_bytes(), Ok(v)),
                Ok(None) => false,
                Err(e) => c_string_outcome(s.spec_bytes(), Err(e)),
            },
        },
{
    match value {
        None => Ok(None),
        Some(s) => match to_c_string(s) {
            Ok(v) => Ok(Some(v)),
            Err(e) => Err(e),
        },
    }
}

/// The bytes of an optional buffer that the host reads by pointer and length;
/// an absent buffer is an empty one.
pub open spec fn buffer_bytes(buffer: Option<&[u8]>) -> Seq<u8> {
    match buffer {
        Some(b) => b@,
        None => Seq::empty(),
    }
}

/// Copies a header buffer for the host, refusing one that holds a zero byte.
pub fn checked_headers(buffer: Option<&[u8]>) -> (r: Result<Vec<u8>, HttpError>)
    ensures
        r is Ok <==> !has_nul(buffer_bytes(buffer)),
        r matches Ok(v) ==> v@ == buffer_bytes(buffer),
        r matches Err(e) ==> refused_at_nul(buffer_bytes(buffer), e),
{
    let mut out: Vec<u8> = Vec::new();
    match buffer {
        None => Ok(out),
        Some(b) => {
            let mut i: usize = 0;
            while i < b.len()
                invariant
                    i <= b@.len(),
                    out@ == b@.subrange(0, i as int),
                    forall|j: int| 0 <= j < i ==> b@[j] != 0u8,
                    buffer_bytes(buffer) == b@,
                decreases b@.len() - i,
            {
                if b[i] == 0u8 {
                    assert(first_nul_at(b@, i as int));
                    assert(has_nul(b@));
                    return Err(HttpError::Argument(ArgumentError::EmbeddedNul { position: i }));
                }
                out.push(b[i]);
                i = i + 1;
            }
            assert(out@ == b@);
            Ok(out)
        },
    }
}

/// Copies a body buffer for the host; a body may hold any byte.
pub fn body_bytes(buffer: Option<&[u8]>) -> (r: Vec<u8>)
    ensures
        r@ == buffer_bytes(buffer),
{
    let mut out: Vec<u8> = Vec::new();
    match buffer {
        None => out,
        Some(b) => {
            let mut i: usize = 0;
            while i < b.len()
                invariant
                    i <= b@.len(),
                    out@ == b@.subrange(0, i as int),
                decreases b@.len() - i,
            {
                out.push(b[i]);
                i = i + 1;
            }
            assert(out@ == b@);
            out
        },
    }
}

/// A length for the host's unsigned integer parameter.
pub fn len_to_c_uint(len: usize) -> (r: Result<u32, HttpError>)
    ensures
        len <= u32::MAX ==> r == Ok::<u32, HttpError>(len as u32),
        len > u32::MAX ==> r == Err::<u32, HttpError>(
            HttpError::Argument(ArgumentError::TooLarge { value: len as u64 }),
        ),
{
    if len > (u32::MAX as usize) {
        Err(HttpError::Argument(ArgumentError::TooLarge { value: len as u64 }))
    } else {
        Ok(len as u32)
    }
}

/// A value for the host's signed integer parameter.
pub fn to_c_int(value: u32) -> (r: Result<i32, HttpError>)
    ensures
        value <= i32::MAX ==> r == Ok::<i32, HttpError>(value as i32),
        value > i32::MAX ==> r == Err::<i32, HttpError>(
            HttpError::Argument(ArgumentError::TooLarge { value: value as u64 }),
        ),
{
    if value > (i32::MAX as u32) {
        Err(HttpError::Argument(ArgumentError::TooLarge { value: value as u64 }))
    } else {
        Ok(value as i32)
    }
}

} // verus!
