//! Textual codec: the compact text form of a record is the lowercase
//! hexadecimal rendering of its binary form, two digits per byte. It is
//! lossless, keeps the binary layout's field-order stability, and is what
//! cross-boundary queries return.

use vstd::prelude::*;
use vstd::utf8::{
    encode_utf8, encode_utf8_decode_utf8, encode_utf8_valid_utf8, is_ascii_chars,
    is_ascii_chars_encode_utf8,
};
use crate::codec::utf8_to_string;
use crate::contract::{spec_dec_contract, spec_enc_contract, NFTContractMetadata, NFTContractMetadataView};
use crate::errors::DecodeError;
use crate::previous::{spec_dec_old, spec_enc_old, OldTokenMetadata, OldTokenMetadataView};
use crate::token::{spec_dec_token, spec_enc_token, TokenMetadata, TokenMetadataView};

verus! {

/// The lowercase hexadecimal digit for a nibble.
pub open spec fn hex_digit(n: u8) -> char {
    if n == 0 {
        '0'
    } else if n == 1 {
        '1'
    } else if n == 2 {
        '2'
    } else if n == 3 {
        '3'
    } else if n == 4 {
        '4'
    } else if n == 5 {
        '5'
    } else if n == 6 {
        '6'
    } else if n == 7 {
        '7'
    } else if n == 8 {
        '8'
    } else if n == 9 {
        '9'
    } else if n == 10 {
        'a'
    } else if n == 11 {
        'b'
    } else if n == 12 {
        'c'
    } else if n == 13 {
        'd'
    } else if n == 14 {
        'e'
    } else {
        'f'
    }
}

/// The nibble a lowercase hexadecimal digit stands for.
pub open spec fn hex_val(c: char) -> Option<u8> {
    if '0' <= c && c <= '9' {
        Some((c as u8 - 48) as u8)
    } else if 'a' <= c && c <= 'f' {
        Some((c as u8 - 87) as u8)
    } else {
        None
    }
}

/// The hexadecimal rendering of a byte string: two digits per byte, high
/// nibble first.
pub open spec fn spec_hex_chars(b: Seq<u8>) -> Seq<char> {
    Seq::new((b.len() * 2) as nat, |i: int| if i % 2 == 0 {
        hex_digit(b[i / 2] / 16)
    } else {
        hex_digit(b[i / 2] % 16)
    })
}

/// The byte a pair of hexadecimal digits stands for.
pub open spec fn hex_pair(hi: char, lo: char) -> u8 {
    match (hex_val(hi), hex_val(lo)) {
        (Some(h), Some(l)) => (16 * h + l) as u8,
        _ => 0,
    }
}

/// The byte string a hexadecimal text stands for, if every character is a
/// lowercase hexadecimal digit and their number is even.
pub open spec fn spec_unhex_chars(s: Seq<char>) -> Option<Seq<u8>> {
    if s.len() % 2 == 0 && (forall|i: int| 0 <= i < s.len() ==> (#[trigger] hex_val(s[i])) is Some) {
        Some(Seq::new((s.len() / 2) as nat, |i: int| hex_pair(s[2 * i], s[2 * i + 1])))
    } else {
        None
    }
}

/// Hexadecimal round trip: the rendering of any byte string is ASCII and
/// reads back as exactly that byte string.
pub proof fn lemma_unhex_hex(b: Seq<u8>)
    ensures
        is_ascii_chars(spec_hex_chars(b)),
        spec_unhex_chars(spec_hex_chars(b)) == Some(b),
{
    let s = spec_hex_chars(b);
    assert forall|i: int| 0 <= i < s.len() implies '\0' <= #[trigger] s[i] <= '\u{7f}'
        && hex_val(s[i]) is Some by {
        let x = b[i / 2];
        assert(x / 16 < 16 && x % 16 < 16);
    }
    assert(is_ascii_chars(s));
    let u = Seq::new((s.len() / 2) as nat, |i: int| hex_pair(s[2 * i], s[2 * i + 1]));
    assert(u =~= b) by {
        assert forall|i: int| 0 <= i < b.len() implies u[i] == b[i] by {
            let x = b[i];
            assert(s[2 * i] == hex_digit(x / 16));
            assert(s[2 * i + 1] == hex_digit(x % 16));
            assert(hex_val(hex_digit(x / 16)) == Some((x / 16) as u8));
            assert(hex_val(hex_digit(x % 16)) == Some((x % 16) as u8));
            assert(16 * (x / 16) + x % 16 == x);
        }
    }
}

/// The nibble an ASCII byte stands for, matching [`hex_val`] on the
/// character with that code point.
pub open spec fn spec_hex_val_byte(b: u8) -> Option<u8> {
    if 48 <= b && b <= 57 {
        Some((b - 48) as u8)
    } else if 97 <= b && b <= 102 {
        Some((b - 87) as u8)
    } else {
        None
    }
}

/// On ASCII characters, the byte-level and the character-level digit
/// readings agree.
pub proof fn lemma_hex_val_byte(c: char)
    requires
        '\0' <= c <= '\u{7f}',
    ensures
        hex_val(c) == spec_hex_val_byte(c as u8),
{
}

fn hex_digit_exec(n: u8) -> (c: u8)
    requires
        n < 16,
    ensures
        c == hex_digit(n) as u8,
{
    if n < 10 {
        48 + n
    } else {
        87 + n
    }
}

fn hex_val_exec(b: u8) -> (r: Option<u8>)
    ensures
        r == spec_hex_val_byte(b),
{
    if 48 <= b && b <= 57 {
        Some(b - 48)
    } else if 97 <= b && b <= 102 {
        Some(b - 87)
    } else {
        None
    }
}

/// Renders a byte string as lowercase hexadecimal text.
pub fn hex_encode(bytes: &[u8]) -> (s: String)
    ensures
        s@ == spec_hex_chars(bytes@),
{
    let ghost chars = spec_hex_chars(bytes@);
    let mut out: Vec<u8> = Vec::new();
    let n = bytes.len();
    let mut i: usize = 0;
    while i < n
        invariant
            n == bytes@.len(),
            0 <= i <= n,
            out@.len() == 2 * i,
            chars == spec_hex_chars(bytes@),
            forall|k: int| 0 <= k < 2 * i ==> out@[k] == #[trigger] chars[k] as u8,
        decreases n - i,
    {
        let x = *vstd::slice::slice_index_get(bytes, i);
        out.push(hex_digit_exec(x / 16));
        out.push(hex_digit_exec(x % 16));
        i = i + 1;
    }
    proof {
        is_ascii_chars_encode_utf8(chars);
        lemma_unhex_hex(bytes@);
        assert(out@ =~= encode_utf8(chars));
        encode_utf8_valid_utf8(chars);
        encode_utf8_decode_utf8(chars);
    }
    match utf8_to_string(out.as_slice()) {
        Some(s) => {
            proof {
                encode_utf8_decode_utf8(s@);
            }
            s
        },
        None => {
            proof {
                assert(false);
            }
            String::new()
        },
    }
}

/// Reads lowercase hexadecimal text back as a byte string; fails exactly
/// when the text is not such a rendering.
pub fn hex_decode(s: &str) -> (r: Option<Vec<u8>>)
    ensures
        match r {
            Some(v) => spec_unhex_chars(s@) == Some(v@),
            None => spec_unhex_chars(s@) is None,
        },
{
    if !s.is_ascii() {
        proof {
            let cs = s@;
            let j = choose|j: int| 0 <= j < cs.len() && !('\0' <= #[trigger] cs[j] <= '\u{7f}');
            assert(hex_val(cs[j]) is None);
        }
        return None;
    }
    proof {
        is_ascii_chars_encode_utf8(s@);
    }
    let bs = s.as_bytes();
    let n = bs.len();
    if n % 2 != 0 {
        return None;
    }
    let mut out: Vec<u8> = Vec::new();
    let mut i: usize = 0;
    while i < n
        invariant
            is_ascii_chars(s@),
            bs@ == encode_utf8(s@),
            n == bs@.len() == s@.len(),
            forall|k: int| 0 <= k < s@.len() ==> s@[k] as u8 == bs@[k],
            n % 2 == 0,
            0 <= i <= n,
            i % 2 == 0,
            out@.len() == i / 2,
            forall|k: int| 0 <= k < i ==> (#[trigger] hex_val(s@[k])) is Some,
            forall|k: int| 0 <= k < i / 2 ==> out@[k] == #[trigger] hex_pair(
                s@[2 * k],
                s@[2 * k + 1],
            ),
        decreases n - i,
    {
        let hi_b = *vstd::slice::slice_index_get(bs, i);
        let lo_b = *vstd::slice::slice_index_get(bs, i + 1);
        proof {
            lemma_hex_val_byte(s@[i as int]);
            lemma_hex_val_byte(s@[i as int + 1]);
        }
        let hi = match hex_val_exec(hi_b) {
            Some(h) => h,
            None => {
                return None;
            },
        };
        let lo = match hex_val_exec(lo_b) {
            Some(l) => l,
            None => {
                return None;
            },
        };
        out.push(16 * hi + lo);
        i = i + 2;
    }
    proof {
        let u = Seq::new((s@.len() / 2) as nat, |k: int| hex_pair(s@[2 * k], s@[2 * k + 1]));
        assert(out@ =~= u);
    }
    Some(out)
}

// ---------------------------------------------------------------------------
// Textual form of each schema type.
// ---------------------------------------------------------------------------

pub open spec fn spec_text_contract(v: NFTContractMetadataView) -> Seq<char> {
    spec_hex_chars(spec_enc_contract(v))
}

pub open spec fn spec_text_dec_contract(s: Seq<char>) -> Option<NFTContractMetadataView> {
    match spec_unhex_chars(s) {
        None => None,
        Some(bin) => spec_dec_contract(bin),
    }
}

pub open spec fn spec_text_token(v: TokenMetadataView) -> Seq<char> {
    spec_hex_chars(spec_enc_token(v))
}

pub open spec fn spec_text_dec_token(s: Seq<char>) -> Option<TokenMetadataView> {
    match spec_unhex_chars(s) {
        None => None,
        Some(bin) => spec_dec_token(bin),
    }
}

pub open spec fn spec_text_old(v: OldTokenMetadataView) -> Seq<char> {
    spec_hex_chars(spec_enc_old(v))
}

pub open spec fn spec_text_dec_old(s: Seq<char>) -> Option<OldTokenMetadataView> {
    match spec_unhex_chars(s) {
        None => None,
        Some(bin) => spec_dec_old(bin),
    }
}

/// Textual round trip: reading back the text form of any well-formed
/// contract record recovers the record exactly.
pub proof fn lemma_contract_text_round_trip(v: NFTContractMetadataView)
    requires
        v.wf(),
    ensures
        spec_text_dec_contract(spec_text_contract(v)) == Some(v),
{
    lemma_unhex_hex(spec_enc_contract(v));
    crate::contract::lemma_contract_binary_round_trip(v);
}

/// Textual round trip: reading back the text form of any well-formed
/// current-layout token record recovers the record exactly.
pub proof fn lemma_token_text_round_trip(v: TokenMetadataView)
    requires
        v.wf(),
    ensures
        spec_text_dec_token(spec_text_token(v)) == Some(v),
{
    lemma_unhex_hex(spec_enc_token(v));
    crate::token::lemma_token_binary_round_trip(v);
}

/// Textual round trip: reading back the text form of any well-formed
/// previous-layout token record recovers the record exactly.
pub proof fn lemma_old_text_round_trip(v: OldTokenMetadataView)
    requires
        v.wf(),
    ensures
        spec_text_dec_old(spec_text_old(v)) == Some(v),
{
    lemma_unhex_hex(spec_enc_old(v));
    crate::previous::lemma_old_binary_round_trip(v);
}

impl NFTContractMetadata {
    /// The record's textual form.
    pub fn to_text(&self) -> (s: String)
        ensures
            s@ == spec_text_contract(self@),
    {
        let bin = self.to_bytes();
        hex_encode(bin.as_slice())
    }

    /// Reads a textual form back; fails exactly when the text is not the
    /// textual form of a record under this layout.
    pub fn from_text(s: &str) -> (r: Result<NFTContractMetadata, DecodeError>)
        ensures
            match r {
                Ok(m) => spec_text_dec_contract(s@) == Some(m@),
                Err(e) => spec_text_dec_contract(s@) is None && e
                    == DecodeError::LayoutDecodeFailure,
            },
    {
        match hex_decode(s) {
            None => Err(DecodeError::LayoutDecodeFailure),
            Some(bin) => NFTContractMetadata::from_bytes(bin.as_slice()),
        }
    }
}

impl TokenMetadata {
    /// The record's textual form.
    pub fn to_text(&self) -> (s: String)
        ensures
            s@ == spec_text_token(self@),
    {
        let bin = self.to_bytes();
        hex_encode(bin.as_slice())
    }

    /// Reads a textual form back; fails exactly when the text is not the
    /// textual form of a record under this layout.
    pub fn from_text(s: &str) -> (r: Result<TokenMetadata, DecodeError>)
        ensures
            match r {
                Ok(m) => spec_text_dec_token(s@) == Some(m@),
                Err(e) => spec_text_dec_token(s@) is None && e == DecodeError::LayoutDecodeFailure,
            },
    {
        match hex_decode(s) {
            None => Err(DecodeError::LayoutDecodeFailure),
            Some(bin) => TokenMetadata::from_bytes(bin.as_slice()),
        }
    }
}

impl OldTokenMetadata {
    /// The record's textual form under the previous layout.
    pub fn to_text(&self) -> (s: String)
        ensures
            s@ == spec_text_old(self@),
    {
        let bin = self.to_bytes();
        hex_encode(bin.as_slice())
    }

    /// Reads a textual form back; fails exactly when the text is not the
    /// textual form of a record under the previous layout.
    pub fn from_text(s: &str) -> (r: Result<OldTokenMetadata, DecodeError>)
        ensures
            match r {
                Ok(m) => spec_text_dec_old(s@) == Some(m@),
                Err(e) => spec_text_dec_old(s@) is None && e == DecodeError::LayoutDecodeFailure,
            },
    {
        match hex_decode(s) {
            None => Err(DecodeError::LayoutDecodeFailure),
            Some(bin) => OldTokenMetadata::from_bytes(bin.as_slice()),
        }
    }
}

} // verus!
