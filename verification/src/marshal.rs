//! Text that crosses the boundary.
//!
//! On the foreign side a text is a buffer of bytes that ends at its first NUL
//! and holds UTF-8 before it. On this side it is a `String`. [`mkstr`] reads a
//! foreign buffer; [`mk_ptr_string`] and [`mk_ptr_str`] make the buffer that
//! is handed over to the caller, a [`ForeignString`].

use crate::error::BridgeError;
use vstd::prelude::*;
use vstd::slice::slice_subrange;
use vstd::utf8::{decode_utf8, decode_utf8_encode_utf8, encode_utf8, encode_utf8_decode_utf8, encode_utf8_valid_utf8, valid_utf8};

verus! {

/// `n` is the place of the first NUL of `buf`.
pub open spec fn terminated_at(buf: Seq<u8>, n: int) -> bool {
    &&& 0 <= n < buf.len()
    &&& buf[n] == 0
    &&& forall|i: int| 0 <= i < n ==> buf[i] != 0
}

/// The bytes of `buf` before its first NUL, or `None` where it has no NUL.
pub open spec fn payload(buf: Seq<u8>) -> Option<Seq<u8>> {
    if exists|n: int| terminated_at(buf, n) {
        Some(buf.take(choose|n: int| terminated_at(buf, n)))
    } else {
        None
    }
}

/// The text that a foreign buffer holds: its payload read as UTF-8. `None`
/// where the buffer is not terminated or the payload is not UTF-8.
pub open spec fn foreign_text(buf: Seq<u8>) -> Option<Seq<char>> {
    match payload(buf) {
        Some(p) => if valid_utf8(p) {
            Some(decode_utf8(p))
        } else {
            None
        },
        None => None,
    }
}

/// The foreign buffer for a text: its UTF-8 bytes, then a NUL. `None` where
/// those bytes hold a NUL themselves.
pub open spec fn foreign_bytes(text: Seq<char>) -> Option<Seq<u8>> {
    if encode_utf8(text).contains(0u8) {
        None
    } else {
        Some(encode_utf8(text).push(0u8))
    }
}

/// A buffer as this side hands it over: UTF-8 without a NUL, then the
/// terminator as its last byte.
pub open spec fn is_foreign_string(buf: Seq<u8>) -> bool {
    &&& buf.len() > 0
    &&& terminated_at(buf, buf.len() - 1)
    &&& valid_utf8(buf.drop_last())
}

/// A buffer has at most one first NUL.
pub proof fn terminator_is_unique(buf: Seq<u8>, n: int)
    requires
        terminated_at(buf, n),
    ensures
        payload(buf) == Some(buf.take(n)),
{
    let m = choose|m: int| terminated_at(buf, m);
    if m < n {
        assert(buf[m] != 0);
    }
    if n < m {
        assert(buf[n] != 0);
    }
}

/// What [`foreign_bytes`] gives is a foreign string.
pub proof fn foreign_bytes_are_foreign_string(text: Seq<char>)
    requires
        foreign_bytes(text) is Some,
    ensures
        is_foreign_string(foreign_bytes(text)->0),
{
    let bytes = encode_utf8(text);
    let buf = bytes.push(0u8);
    encode_utf8_valid_utf8(text);
    assert(buf.drop_last() =~= bytes);
    assert forall|i: int| 0 <= i < buf.len() - 1 implies buf[i] != 0 by {
        assert(bytes.contains(bytes[i]));
    }
}

/// Reading a foreign buffer and writing the text out again gives the buffer
/// back, byte for byte, up to and including its terminator.
pub proof fn decode_then_encode(buf: Seq<u8>)
    requires
        foreign_text(buf) is Some,
    ensures
        foreign_bytes(foreign_text(buf)->0) == Some(payload(buf)->0.push(0u8)),
        is_foreign_string(buf) ==> foreign_bytes(foreign_text(buf)->0) == Some(buf),
{
    let n = choose|n: int| terminated_at(buf, n);
    let p = buf.take(n);
    decode_utf8_encode_utf8(p);
    if p.contains(0u8) {
        let i = choose|i: int| 0 <= i < p.len() && p[i] == 0u8;
        assert(buf[i] != 0);
    }
    if is_foreign_string(buf) {
        terminator_is_unique(buf, buf.len() - 1);
        assert(buf.take(buf.len() - 1).push(0u8) =~= buf);
    }
}

/// Writing a text out and reading the buffer again gives the text back.
pub proof fn encode_then_decode(text: Seq<char>)
    requires
        foreign_bytes(text) is Some,
    ensures
        foreign_text(foreign_bytes(text)->0) == Some(text),
{
    let bytes = encode_utf8(text);
    let buf = bytes.push(0u8);
    foreign_bytes_are_foreign_string(text);
    terminator_is_unique(buf, buf.len() - 1);
    assert(buf.take(buf.len() - 1) =~= bytes);
    encode_utf8_decode_utf8(text);
}

/// A text in the form in which the caller receives it. Only this module makes
/// such values, so each of them is a well-formed foreign string, and each is
/// owned by exactly one holder.
#[derive(Debug, PartialEq, Eq)]
pub struct ForeignString {
    bytes: Vec<u8>,
}

impl View for ForeignString {
    type V = Seq<u8>;

    closed spec fn view(&self) -> Seq<u8> {
        self.bytes@
    }
}

impl ForeignString {
    #[verifier::type_invariant]
    spec fn well_formed(self) -> bool {
        is_foreign_string(self.bytes@)
    }

    /// The bytes of the buffer, terminator included.
    pub fn as_bytes_with_nul(&self) -> (b: &[u8])
        ensures
            b@ == self@,
            is_foreign_string(b@),
    {
        proof {
            use_type_invariant(self);
        }
        self.bytes.as_slice()
    }

    /// Gives the buffer up, terminator included.
    pub fn into_bytes_with_nul(self) -> (b: Vec<u8>)
        ensures
            b@ == self@,
            is_foreign_string(b@),
    {
        proof {
            use_type_invariant(&self);
        }
        self.bytes
    }
}

/// `std::str::from_utf8`: the bytes are accepted exactly when they are
/// well-formed UTF-8, and the text handed back is their decoding.
#[verifier::external_body]
fn text_of_utf8(bytes: &[u8]) -> (r: Option<&str>)
    ensures
        r is Some <==> valid_utf8(bytes@),
        r matches Some(text) ==> text@ == decode_utf8(bytes@),
{
    std::str::from_utf8(bytes).ok()
}

/// The place of the first NUL, if there is one.
fn find_nul(buf: &[u8]) -> (r: Option<usize>)
    ensures
        match r {
            Some(n) => terminated_at(buf@, n as int),
            None => payload(buf@) is None,
        },
{
    let mut i: usize = 0;
    while i < buf.len()
        invariant
            i <= buf@.len(),
            forall|j: int| 0 <= j < i ==> buf@[j] != 0,
        decreases buf@.len() - i,
    {
        if buf[i] == 0 {
            return Some(i);
        }
        i += 1;
    }
    None
}

/// Reads the text of a foreign buffer into an owned string.
///
/// `None` stands for the null pointer. The buffer is read up to its first
/// NUL; what follows is ignored. An absent buffer, one without a NUL and one
/// whose payload is not UTF-8 are invalid input.
pub fn mkstr(s: Option<&[u8]>) -> (r: Result<String, BridgeError>)
    ensures
        match r {
            Ok(text) => s is Some && foreign_text(s->0@) == Some(text@),
            Err(e) => e == BridgeError::InvalidInput && (s is None || foreign_text(s->0@) is None),
        },
{
    match s {
        None => Err(BridgeError::InvalidInput),
        Some(buf) => match find_nul(buf) {
            None => Err(BridgeError::InvalidInput),
            Some(n) => {
                proof {
                    terminator_is_unique(buf@, n as int);
                }
                match text_of_utf8(slice_subrange(buf, 0, n)) {
                    Some(text) => Ok(text.to_owned()),
                    None => Err(BridgeError::InvalidInput),
                }
            },
        },
    }
}

/// Makes the foreign string for a text.
///
/// A text whose UTF-8 bytes hold a NUL has no foreign form and is invalid
/// input.
pub fn mk_ptr_str(s: &str) -> (r: Result<ForeignString, BridgeError>)
    ensures
        match r {
            Ok(f) => foreign_bytes(s@) == Some(f@),
            Err(e) => e == BridgeError::InvalidInput && foreign_bytes(s@) is None,
        },
{
    let src = s.as_bytes();
    let mut bytes: Vec<u8> = Vec::new();
    let mut i: usize = 0;
    while i < src.len()
        invariant
            i <= src@.len(),
            src@ == encode_utf8(s@),
            bytes@ == src@.take(i as int),
            forall|j: int| 0 <= j < i ==> src@[j] != 0,
        decreases src@.len() - i,
    {
        if src[i] == 0 {
            return Err(BridgeError::InvalidInput);
        }
        bytes.push(src[i]);
        proof {
            assert(bytes@ =~= src@.take(i + 1));
        }
        i += 1;
    }
    bytes.push(0);
    proof {
        assert(src@.take(i as int) =~= src@);
        if src@.contains(0u8) {
            let k = choose|k: int| 0 <= k < src@.len() && src@[k] == 0u8;
            assert(src@[k] != 0);
        }
        foreign_bytes_are_foreign_string(s@);
    }
    Ok(ForeignString { bytes })
}

/// Makes the foreign string for an owned text. See [`mk_ptr_str`].
pub fn mk_ptr_string(s: String) -> (r: Result<ForeignString, BridgeError>)
    ensures
        match r {
            Ok(f) => foreign_bytes(s@) == Some(f@),
            Err(e) => e == BridgeError::InvalidInput && foreign_bytes(s@) is None,
        },
{
    mk_ptr_str(s.as_str())
}

/// Echoes a foreign text: reads it and hands an owned copy back.
pub fn hello_rust(n: Option<&[u8]>) -> (r: Result<ForeignString, BridgeError>)
    ensures
        match r {
            Ok(f) => n is Some && foreign_text(n->0@) is Some && f@ == payload(n->0@)->0.push(0u8),
            Err(e) => e == BridgeError::InvalidInput && (n is None || foreign_text(n->0@) is None),
        },
{
    match mkstr(n) {
        Ok(text) => {
            proof {
                decode_then_encode(n->0@);
            }
            mk_ptr_string(text)
        },
        Err(e) => Err(e),
    }
}

} // verus!
