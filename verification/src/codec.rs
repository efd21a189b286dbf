//! Binary codec primitives shared by every schema type.
//!
//! The persisted layout writes fields in declaration order with no framing
//! beyond the fields themselves: a `u64` is eight little-endian bytes, a byte
//! string is a little-endian `u64` length followed by the bytes, a text
//! string is its UTF-8 bytes encoded as a byte string, a `bool` is one byte
//! (`0` or `1`), and an optional value is a one-byte presence tag (`0` or
//! `1`) followed, when present, by the value's encoding.

use vstd::prelude::*;
use vstd::bytes::{
    lemma_auto_spec_u64_to_from_le_bytes, spec_u64_from_le_bytes, spec_u64_to_le_bytes,
    u64_from_le_bytes, u64_to_le_bytes,
};
use vstd::slice::{slice_index_get, slice_subrange, slice_to_vec};
use vstd::utf8::{decode_utf8, encode_utf8, encode_utf8_decode_utf8, encode_utf8_valid_utf8, valid_utf8};

verus! {

// ---------------------------------------------------------------------------
// Well-formedness: a value can only be framed if its length fits the header.
// ---------------------------------------------------------------------------

/// A byte string whose length fits the `u64` length header.
pub open spec fn bytes_fits(b: Seq<u8>) -> bool {
    b.len() <= u64::MAX
}

/// A text string whose UTF-8 encoding fits the `u64` length header.
pub open spec fn str_fits(s: Seq<char>) -> bool {
    encode_utf8(s).len() <= u64::MAX
}

pub open spec fn opt_bytes_fits(v: Option<Seq<u8>>) -> bool {
    match v {
        Some(b) => bytes_fits(b),
        None => true,
    }
}

pub open spec fn opt_str_fits(v: Option<Seq<char>>) -> bool {
    match v {
        Some(s) => str_fits(s),
        None => true,
    }
}

// ---------------------------------------------------------------------------
// Specification-level encoders.
// ---------------------------------------------------------------------------

pub open spec fn spec_enc_u64(x: u64) -> Seq<u8> {
    spec_u64_to_le_bytes(x)
}

pub open spec fn spec_enc_bool(v: bool) -> Seq<u8> {
    seq![if v { 1u8 } else { 0u8 }]
}

pub open spec fn spec_enc_bytes(b: Seq<u8>) -> Seq<u8> {
    spec_enc_u64(b.len() as u64) + b
}

pub open spec fn spec_enc_str(s: Seq<char>) -> Seq<u8> {
    spec_enc_bytes(encode_utf8(s))
}

pub open spec fn spec_enc_opt_u64(v: Option<u64>) -> Seq<u8> {
    match v {
        None => seq![0u8],
        Some(x) => seq![1u8] + spec_enc_u64(x),
    }
}

pub open spec fn spec_enc_opt_bool(v: Option<bool>) -> Seq<u8> {
    match v {
        None => seq![0u8],
        Some(x) => seq![1u8] + spec_enc_bool(x),
    }
}

pub open spec fn spec_enc_opt_bytes(v: Option<Seq<u8>>) -> Seq<u8> {
    match v {
        None => seq![0u8],
        Some(b) => seq![1u8] + spec_enc_bytes(b),
    }
}

pub open spec fn spec_enc_opt_str(v: Option<Seq<char>>) -> Seq<u8> {
    match v {
        None => seq![0u8],
        Some(s) => seq![1u8] + spec_enc_str(s),
    }
}

// ---------------------------------------------------------------------------
// Specification-level decoders: partial functions from a buffer and a
// position to the decoded value and the position after it.
// ---------------------------------------------------------------------------

pub open spec fn spec_dec_u64(b: Seq<u8>, i: int) -> Option<(u64, int)> {
    if 0 <= i && i + 8 <= b.len() {
        Some((spec_u64_from_le_bytes(b.subrange(i, i + 8)), i + 8))
    } else {
        None
    }
}

pub open spec fn spec_dec_bool(b: Seq<u8>, i: int) -> Option<(bool, int)> {
    if 0 <= i && i < b.len() {
        if b[i] == 0u8 {
            Some((false, i + 1))
        } else if b[i] == 1u8 {
            Some((true, i + 1))
        } else {
            None
        }
    } else {
        None
    }
}

pub open spec fn spec_dec_bytes(b: Seq<u8>, i: int) -> Option<(Seq<u8>, int)> {
    match spec_dec_u64(b, i) {
        None => None,
        Some((n, j)) => if j + n <= b.len() {
            Some((b.subrange(j, j + n), j + n))
        } else {
            None
        },
    }
}

pub open spec fn spec_dec_str(b: Seq<u8>, i: int) -> Option<(Seq<char>, int)> {
    match spec_dec_bytes(b, i) {
        None => None,
        Some((bs, j)) => if valid_utf8(bs) {
            Some((decode_utf8(bs), j))
        } else {
            None
        },
    }
}

pub open spec fn spec_dec_opt_u64(b: Seq<u8>, i: int) -> Option<(Option<u64>, int)> {
    if 0 <= i && i < b.len() {
        if b[i] == 0u8 {
            Some((None, i + 1))
        } else if b[i] == 1u8 {
            match spec_dec_u64(b, i + 1) {
                None => None,
                Some((x, j)) => Some((Some(x), j)),
            }
        } else {
            None
        }
    } else {
        None
    }
}

pub open spec fn spec_dec_opt_bool(b: Seq<u8>, i: int) -> Option<(Option<bool>, int)> {
    if 0 <= i && i < b.len() {
        if b[i] == 0u8 {
            Some((None, i + 1))
        } else if b[i] == 1u8 {
            match spec_dec_bool(b, i + 1) {
                None => None,
                Some((x, j)) => Some((Some(x), j)),
            }
        } else {
            None
        }
    } else {
        None
    }
}

pub open spec fn spec_dec_opt_bytes(b: Seq<u8>, i: int) -> Option<(Option<Seq<u8>>, int)> {
    if 0 <= i && i < b.len() {
        if b[i] == 0u8 {
            Some((None, i + 1))
        } else if b[i] == 1u8 {
            match spec_dec_bytes(b, i + 1) {
                None => None,
                Some((x, j)) => Some((Some(x), j)),
            }
        } else {
            None
        }
    } else {
        None
    }
}

pub open spec fn spec_dec_opt_str(b: Seq<u8>, i: int) -> Option<(Option<Seq<char>>, int)> {
    if 0 <= i && i < b.len() {
        if b[i] == 0u8 {
            Some((None, i + 1))
        } else if b[i] == 1u8 {
            match spec_dec_str(b, i + 1) {
                None => None,
                Some((x, j)) => Some((Some(x), j)),
            }
        } else {
            None
        }
    } else {
        None
    }
}

// ---------------------------------------------------------------------------
// Chain lemmas: when the suffix of a buffer is a field's encoding followed
// by a remainder, the decoder recovers the field and stops at the remainder.
// These drive the per-record round-trip proofs field by field.
// ---------------------------------------------------------------------------

proof fn lemma_suffix_split(b: Seq<u8>, i: int, e: Seq<u8>, rest: Seq<u8>)
    requires
        0 <= i <= b.len(),
        b.subrange(i, b.len() as int) == e + rest,
    ensures
        i + e.len() + rest.len() == b.len(),
        b.subrange(i, i + e.len()) == e,
        b.subrange(i + e.len(), b.len() as int) == rest,
{
    assert(b.subrange(i, b.len() as int).len() == e.len() + rest.len());
    assert(b.subrange(i, i + e.len()) =~= e) by {
        assert forall|k: int| 0 <= k < e.len() implies b.subrange(i, i + e.len())[k] == e[k] by {
            assert(b.subrange(i, b.len() as int)[k] == (e + rest)[k]);
        }
    }
    assert(b.subrange(i + e.len(), b.len() as int) =~= rest) by {
        assert forall|k: int| 0 <= k < rest.len() implies b.subrange(
            i + e.len(),
            b.len() as int,
        )[k] == rest[k] by {
            assert(b.subrange(i, b.len() as int)[e.len() + k] == (e + rest)[e.len() + k]);
            assert(b.subrange(i, b.len() as int)[e.len() + k] == b[i + e.len() + k]);
            assert(b.subrange(i + e.len(), b.len() as int)[k] == b[i + e.len() + k]);
        }
    }
}

pub proof fn lemma_chain_u64(b: Seq<u8>, i: int, x: u64, rest: Seq<u8>)
    requires
        0 <= i <= b.len(),
        b.subrange(i, b.len() as int) == spec_enc_u64(x) + rest,
    ensures
        i + spec_enc_u64(x).len() <= b.len(),
        spec_enc_u64(x).len() == 8,
        spec_dec_u64(b, i) == Some((x, i + 8)),
        b.subrange(i + 8, b.len() as int) == rest,
{
    lemma_auto_spec_u64_to_from_le_bytes();
    lemma_suffix_split(b, i, spec_enc_u64(x), rest);
}

pub proof fn lemma_chain_bool(b: Seq<u8>, i: int, v: bool, rest: Seq<u8>)
    requires
        0 <= i <= b.len(),
        b.subrange(i, b.len() as int) == spec_enc_bool(v) + rest,
    ensures
        i + 1 <= b.len(),
        spec_dec_bool(b, i) == Some((v, i + 1)),
        b.subrange(i + 1, b.len() as int) == rest,
{
    lemma_suffix_split(b, i, spec_enc_bool(v), rest);
    assert(b[i] == b.subrange(i, i + 1)[0]);
}

pub proof fn lemma_chain_bytes(b: Seq<u8>, i: int, s: Seq<u8>, rest: Seq<u8>)
    requires
        0 <= i <= b.len(),
        bytes_fits(s),
        b.subrange(i, b.len() as int) == spec_enc_bytes(s) + rest,
    ensures
        i + spec_enc_bytes(s).len() <= b.len(),
        spec_enc_bytes(s).len() == 8 + s.len(),
        spec_dec_bytes(b, i) == Some((s, i + 8 + s.len())),
        b.subrange(i + 8 + s.len(), b.len() as int) == rest,
{
    let n = s.len() as u64;
    lemma_auto_spec_u64_to_from_le_bytes();
    assert(spec_enc_bytes(s) + rest =~= spec_enc_u64(n) + (s + rest));
    lemma_chain_u64(b, i, n, s + rest);
    lemma_suffix_split(b, i + 8, s, rest);
}

pub proof fn lemma_chain_str(b: Seq<u8>, i: int, s: Seq<char>, rest: Seq<u8>)
    requires
        0 <= i <= b.len(),
        str_fits(s),
        b.subrange(i, b.len() as int) == spec_enc_str(s) + rest,
    ensures
        i + spec_enc_str(s).len() <= b.len(),
        spec_enc_str(s).len() == 8 + encode_utf8(s).len(),
        spec_dec_str(b, i) == Some((s, i + spec_enc_str(s).len())),
        b.subrange(i + spec_enc_str(s).len(), b.len() as int) == rest,
{
    lemma_chain_bytes(b, i, encode_utf8(s), rest);
    encode_utf8_valid_utf8(s);
    encode_utf8_decode_utf8(s);
}

pub proof fn lemma_chain_opt_u64(b: Seq<u8>, i: int, v: Option<u64>, rest: Seq<u8>)
    requires
        0 <= i <= b.len(),
        b.subrange(i, b.len() as int) == spec_enc_opt_u64(v) + rest,
    ensures
        i + spec_enc_opt_u64(v).len() <= b.len(),
        spec_dec_opt_u64(b, i) == Some((v, i + spec_enc_opt_u64(v).len())),
        b.subrange(i + spec_enc_opt_u64(v).len(), b.len() as int) == rest,
{
    match v {
        None => {
            lemma_suffix_split(b, i, spec_enc_opt_u64(v), rest);
            assert(b[i] == b.subrange(i, i + 1)[0]);
        },
        Some(x) => {
            assert(spec_enc_opt_u64(v) + rest =~= seq![1u8] + (spec_enc_u64(x) + rest));
            lemma_suffix_split(b, i, seq![1u8], spec_enc_u64(x) + rest);
            assert(b[i] == b.subrange(i, i + 1)[0]);
            lemma_chain_u64(b, i + 1, x, rest);
        },
    }
}

pub proof fn lemma_chain_opt_bool(b: Seq<u8>, i: int, v: Option<bool>, rest: Seq<u8>)
    requires
        0 <= i <= b.len(),
        b.subrange(i, b.len() as int) == spec_enc_opt_bool(v) + rest,
    ensures
        i + spec_enc_opt_bool(v).len() <= b.len(),
        spec_dec_opt_bool(b, i) == Some((v, i + spec_enc_opt_bool(v).len())),
        b.subrange(i + spec_enc_opt_bool(v).len(), b.len() as int) == rest,
{
    match v {
        None => {
            lemma_suffix_split(b, i, spec_enc_opt_bool(v), rest);
            assert(b[i] == b.subrange(i, i + 1)[0]);
        },
        Some(x) => {
            assert(spec_enc_opt_bool(v) + rest =~= seq![1u8] + (spec_enc_bool(x) + rest));
            lemma_suffix_split(b, i, seq![1u8], spec_enc_bool(x) + rest);
            assert(b[i] == b.subrange(i, i + 1)[0]);
            lemma_chain_bool(b, i + 1, x, rest);
        },
    }
}

pub proof fn lemma_chain_opt_bytes(b: Seq<u8>, i: int, v: Option<Seq<u8>>, rest: Seq<u8>)
    requires
        0 <= i <= b.len(),
        opt_bytes_fits(v),
        b.subrange(i, b.len() as int) == spec_enc_opt_bytes(v) + rest,
    ensures
        i + spec_enc_opt_bytes(v).len() <= b.len(),
        spec_dec_opt_bytes(b, i) == Some((v, i + spec_enc_opt_bytes(v).len())),
        b.subrange(i + spec_enc_opt_bytes(v).len(), b.len() as int) == rest,
{
    match v {
        None => {
            lemma_suffix_split(b, i, spec_enc_opt_bytes(v), rest);
            assert(b[i] == b.subrange(i, i + 1)[0]);
        },
        Some(s) => {
            assert(spec_enc_opt_bytes(v) + rest =~= seq![1u8] + (spec_enc_bytes(s) + rest));
            lemma_suffix_split(b, i, seq![1u8], spec_enc_bytes(s) + rest);
            assert(b[i] == b.subrange(i, i + 1)[0]);
            lemma_chain_bytes(b, i + 1, s, rest);
        },
    }
}

pub proof fn lemma_chain_opt_str(b: Seq<u8>, i: int, v: Option<Seq<char>>, rest: Seq<u8>)
    requires
        0 <= i <= b.len(),
        opt_str_fits(v),
        b.subrange(i, b.len() as int) == spec_enc_opt_str(v) + rest,
    ensures
        i + spec_enc_opt_str(v).len() <= b.len(),
        spec_dec_opt_str(b, i) == Some((v, i + spec_enc_opt_str(v).len())),
        b.subrange(i + spec_enc_opt_str(v).len(), b.len() as int) == rest,
{
    match v {
        None => {
            lemma_suffix_split(b, i, spec_enc_opt_str(v), rest);
            assert(b[i] == b.subrange(i, i + 1)[0]);
        },
        Some(s) => {
            assert(spec_enc_opt_str(v) + rest =~= seq![1u8] + (spec_enc_str(s) + rest));
            lemma_suffix_split(b, i, seq![1u8], spec_enc_str(s) + rest);
            assert(b[i] == b.subrange(i, i + 1)[0]);
            lemma_chain_str(b, i + 1, s, rest);
        },
    }
}

// ---------------------------------------------------------------------------
// Executable encoders: each appends one field's encoding to the buffer.
// ---------------------------------------------------------------------------

pub fn enc_u64(out: &mut Vec<u8>, x: u64)
    ensures
        final(out)@ == old(out)@ + spec_enc_u64(x),
{
    let mut le = u64_to_le_bytes(x);
    out.append(&mut le);
}

pub fn enc_bool(out: &mut Vec<u8>, v: bool)
    ensures
        final(out)@ == old(out)@ + spec_enc_bool(v),
{
    out.push(if v { 1u8 } else { 0u8 });
    assert(out@ =~= old(out)@ + spec_enc_bool(v));
}

pub fn enc_bytes(out: &mut Vec<u8>, v: &[u8])
    ensures
        final(out)@ == old(out)@ + spec_enc_bytes(v@),
{
    enc_u64(out, v.len() as u64);
    out.extend_from_slice(v);
    assert(out@ =~= old(out)@ + spec_enc_bytes(v@));
}

pub fn enc_str(out: &mut Vec<u8>, s: &str)
    ensures
        final(out)@ == old(out)@ + spec_enc_str(s@),
{
    enc_bytes(out, s.as_bytes());
}

pub fn enc_opt_u64(out: &mut Vec<u8>, v: &Option<u64>)
    ensures
        final(out)@ == old(out)@ + spec_enc_opt_u64(*v),
{
    match v {
        None => {
            out.push(0u8);
        },
        Some(x) => {
            out.push(1u8);
            enc_u64(out, *x);
        },
    }
    assert(out@ =~= old(out)@ + spec_enc_opt_u64(*v));
}

pub fn enc_opt_bool(out: &mut Vec<u8>, v: &Option<bool>)
    ensures
        final(out)@ == old(out)@ + spec_enc_opt_bool(*v),
{
    match v {
        None => {
            out.push(0u8);
        },
        Some(x) => {
            out.push(1u8);
            enc_bool(out, *x);
        },
    }
    assert(out@ =~= old(out)@ + spec_enc_opt_bool(*v));
}

pub fn enc_opt_bytes(out: &mut Vec<u8>, v: &Option<Vec<u8>>)
    ensures
        final(out)@ == old(out)@ + spec_enc_opt_bytes(v.deep_view()),
{
    match v {
        None => {
            out.push(0u8);
        },
        Some(s) => {
            out.push(1u8);
            enc_bytes(out, s.as_slice());
            assert(s.deep_view() =~= s@);
        },
    }
    assert(out@ =~= old(out)@ + spec_enc_opt_bytes(v.deep_view()));
}

pub fn enc_opt_str(out: &mut Vec<u8>, v: &Option<String>)
    ensures
        final(out)@ == old(out)@ + spec_enc_opt_str(v.deep_view()),
{
    match v {
        None => {
            out.push(0u8);
        },
        Some(s) => {
            out.push(1u8);
            enc_str(out, s.as_str());
        },
    }
    assert(out@ =~= old(out)@ + spec_enc_opt_str(v.deep_view()));
}

/// Byte-slice equality, decided element by element.
pub fn bytes_eq(a: &[u8], b: &[u8]) -> (r: bool)
    ensures
        r == (a@ == b@),
{
    if a.len() != b.len() {
        return false;
    }
    let n = a.len();
    let mut i: usize = 0;
    while i < n
        invariant
            n == a@.len() == b@.len(),
            0 <= i <= n,
            forall|k: int| 0 <= k < i ==> a@[k] == b@[k],
        decreases n - i,
    {
        if *slice_index_get(a, i) != *slice_index_get(b, i) {
            return false;
        }
        i = i + 1;
    }
    proof {
        assert(a@ =~= b@);
    }
    true
}

/// String equality, decided on the UTF-8 bytes.
pub fn str_eq(a: &str, b: &str) -> (r: bool)
    ensures
        r == (a@ == b@),
{
    let r = bytes_eq(a.as_bytes(), b.as_bytes());
    proof {
        encode_utf8_decode_utf8(a@);
        encode_utf8_decode_utf8(b@);
    }
    r
}

// ---------------------------------------------------------------------------
// Executable decoders: each reads one field at a position and reports the
// position after it, returning exactly what the specification decoder says.
// ---------------------------------------------------------------------------

/// Relies on core::str::from_utf8 together with str::to_owned: the
/// conversion succeeds exactly on valid UTF-8 input, and the returned string
/// is the one whose UTF-8 encoding is the input bytes.
#[verifier::external_body]
pub(crate) fn utf8_to_string(bytes: &[u8]) -> (r: Option<String>)
    ensures
        match r {
            Some(s) => valid_utf8(bytes@) && encode_utf8(s@) == bytes@,
            None => !valid_utf8(bytes@),
        },
{
    match core::str::from_utf8(bytes) {
        Ok(s) => Some(s.to_owned()),
        Err(_) => None,
    }
}

pub fn dec_u64(buf: &[u8], pos: usize) -> (r: Option<(u64, usize)>)
    ensures
        match r {
            Some((x, p)) => spec_dec_u64(buf@, pos as int) == Some((x, p as int)) && p
                <= buf@.len(),
            None => spec_dec_u64(buf@, pos as int) is None,
        },
{
    if pos <= buf.len() && buf.len() - pos >= 8 {
        let sub = slice_subrange(buf, pos, pos + 8);
        let x = u64_from_le_bytes(sub);
        Some((x, pos + 8))
    } else {
        None
    }
}

pub fn dec_bool(buf: &[u8], pos: usize) -> (r: Option<(bool, usize)>)
    ensures
        match r {
            Some((x, p)) => spec_dec_bool(buf@, pos as int) == Some((x, p as int)) && p
                <= buf@.len(),
            None => spec_dec_bool(buf@, pos as int) is None,
        },
{
    if pos < buf.len() {
        let tag = *slice_index_get(buf, pos);
        if tag == 0u8 {
            Some((false, pos + 1))
        } else if tag == 1u8 {
            Some((true, pos + 1))
        } else {
            None
        }
    } else {
        None
    }
}

pub fn dec_bytes(buf: &[u8], pos: usize) -> (r: Option<(Vec<u8>, usize)>)
    ensures
        match r {
            Some((v, p)) => spec_dec_bytes(buf@, pos as int) == Some((v@, p as int)) && p
                <= buf@.len(),
            None => spec_dec_bytes(buf@, pos as int) is None,
        },
{
    match dec_u64(buf, pos) {
        None => None,
        Some((n, j)) => {
            if n <= (buf.len() - j) as u64 {
                let k = j + (n as usize);
                let sub = slice_subrange(buf, j, k);
                let v = slice_to_vec(sub);
                Some((v, k))
            } else {
                None
            }
        },
    }
}

pub fn dec_str(buf: &[u8], pos: usize) -> (r: Option<(String, usize)>)
    ensures
        match r {
            Some((s, p)) => spec_dec_str(buf@, pos as int) == Some((s@, p as int)) && p
                <= buf@.len(),
            None => spec_dec_str(buf@, pos as int) is None,
        },
{
    match dec_bytes(buf, pos) {
        None => None,
        Some((v, p)) => match utf8_to_string(v.as_slice()) {
            None => None,
            Some(s) => {
                proof {
                    encode_utf8_decode_utf8(s@);
                }
                Some((s, p))
            },
        },
    }
}

pub fn dec_opt_u64(buf: &[u8], pos: usize) -> (r: Option<(Option<u64>, usize)>)
    ensures
        match r {
            Some((v, p)) => spec_dec_opt_u64(buf@, pos as int) == Some((v, p as int)) && p
                <= buf@.len(),
            None => spec_dec_opt_u64(buf@, pos as int) is None,
        },
{
    if pos < buf.len() {
        let tag = *slice_index_get(buf, pos);
        if tag == 0u8 {
            Some((None, pos + 1))
        } else if tag == 1u8 {
            match dec_u64(buf, pos + 1) {
                None => None,
                Some((x, p)) => Some((Some(x), p)),
            }
        } else {
            None
        }
    } else {
        None
    }
}

pub fn dec_opt_bool(buf: &[u8], pos: usize) -> (r: Option<(Option<bool>, usize)>)
    ensures
        match r {
            Some((v, p)) => spec_dec_opt_bool(buf@, pos as int) == Some((v, p as int)) && p
                <= buf@.len(),
            None => spec_dec_opt_bool(buf@, pos as int) is None,
        },
{
    if pos < buf.len() {
        let tag = *slice_index_get(buf, pos);
        if tag == 0u8 {
            Some((None, pos + 1))
        } else if tag == 1u8 {
            match dec_bool(buf, pos + 1) {
                None => None,
                Some((x, p)) => Some((Some(x), p)),
            }
        } else {
            None
        }
    } else {
        None
    }
}

pub fn dec_opt_bytes(buf: &[u8], pos: usize) -> (r: Option<(Option<Vec<u8>>, usize)>)
    ensures
        match r {
            Some((v, p)) => spec_dec_opt_bytes(buf@, pos as int) == Some((v.deep_view(), p as int))
                && p <= buf@.len(),
            None => spec_dec_opt_bytes(buf@, pos as int) is None,
        },
{
    if pos < buf.len() {
        let tag = *slice_index_get(buf, pos);
        if tag == 0u8 {
            let r: Option<Vec<u8>> = None;
            Some((r, pos + 1))
        } else if tag == 1u8 {
            match dec_bytes(buf, pos + 1) {
                None => None,
                Some((x, p)) => {
                    assert(Some(x).deep_view() =~= Some(x@));
                    Some((Some(x), p))
                },
            }
        } else {
            None
        }
    } else {
        None
    }
}

pub fn dec_opt_str(buf: &[u8], pos: usize) -> (r: Option<(Option<String>, usize)>)
    ensures
        match r {
            Some((v, p)) => spec_dec_opt_str(buf@, pos as int) == Some((v.deep_view(), p as int))
                && p <= buf@.len(),
            None => spec_dec_opt_str(buf@, pos as int) is None,
        },
{
    if pos < buf.len() {
        let tag = *slice_index_get(buf, pos);
        if tag == 0u8 {
            let r: Option<String> = None;
            Some((r, pos + 1))
        } else if tag == 1u8 {
            match dec_str(buf, pos + 1) {
                None => None,
                Some((x, p)) => Some((Some(x), p)),
            }
        } else {
            None
        }
    } else {
        None
    }
}

} // verus!
