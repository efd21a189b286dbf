//! Per-token metadata under the current layout: the record, its structural
//! validation, and its binary codec.

use vstd::prelude::*;
use crate::codec::{
    dec_opt_bool, dec_opt_bytes, dec_opt_str, dec_opt_u64, enc_opt_bool, enc_opt_bytes,
    enc_opt_str, enc_opt_u64, opt_bytes_fits, opt_str_fits, spec_enc_opt_bool,
    spec_enc_opt_bytes, spec_enc_opt_str, spec_enc_opt_u64, spec_dec_opt_bool,
    spec_dec_opt_bytes, spec_dec_opt_str, spec_dec_opt_u64,
};
use crate::errors::{DecodeError, HashField, ValidationError};
use vstd::seq_lib::lemma_concat_associative;

verus! {

/// Metadata on the individual token level.
#[derive(Clone, Debug, PartialEq)]
pub struct TokenMetadata {
    /// Ex. "Arch Nemesis: Mail Carrier" or "Parcel #5055".
    pub title: Option<String>,
    /// Free-form description.
    pub description: Option<String>,
    /// URL to associated media, preferably decentralized, content-addressed storage.
    pub media: Option<String>,
    /// Sha256 hash of the content behind `media`; required if `media` is included.
    pub media_hash: Option<Vec<u8>>,
    /// Number of copies of this set of metadata in existence when the token was minted.
    pub copies: Option<u64>,
    /// ISO 8601 datetime when the token was issued or minted.
    pub issued_at: Option<String>,
    /// The price in yoctos.
    pub price: Option<String>,
    /// The culture.
    pub culture: Option<String>,
    /// The country.
    pub country: Option<String>,
    /// The creator.
    pub creator: Option<String>,
    /// Sale status.
    pub on_sale: Option<bool>,
    /// ISO 8601 datetime when the token expires.
    pub expires_at: Option<String>,
    /// ISO 8601 datetime when the token starts being valid.
    pub starts_at: Option<String>,
    /// ISO 8601 datetime when the token was last updated.
    pub updated_at: Option<String>,
    /// Anything extra the NFT wants to store on-chain; can be stringified JSON.
    pub extra: Option<String>,
    /// URL to an off-chain JSON file with more info.
    pub reference: Option<String>,
    /// Sha256 hash of the JSON behind `reference`; required if `reference` is included.
    pub reference_hash: Option<Vec<u8>>,
}

/// The mathematical model of a current-layout token record.
pub struct TokenMetadataView {
    pub title: Option<Seq<char>>,
    pub description: Option<Seq<char>>,
    pub media: Option<Seq<char>>,
    pub media_hash: Option<Seq<u8>>,
    pub copies: Option<u64>,
    pub issued_at: Option<Seq<char>>,
    pub price: Option<Seq<char>>,
    pub culture: Option<Seq<char>>,
    pub country: Option<Seq<char>>,
    pub creator: Option<Seq<char>>,
    pub on_sale: Option<bool>,
    pub expires_at: Option<Seq<char>>,
    pub starts_at: Option<Seq<char>>,
    pub updated_at: Option<Seq<char>>,
    pub extra: Option<Seq<char>>,
    pub reference: Option<Seq<char>>,
    pub reference_hash: Option<Seq<u8>>,
}

impl View for TokenMetadata {
    type V = TokenMetadataView;

    open spec fn view(&self) -> TokenMetadataView {
        TokenMetadataView {
            title: self.title.deep_view(),
            description: self.description.deep_view(),
            media: self.media.deep_view(),
            media_hash: self.media_hash.deep_view(),
            copies: self.copies,
            issued_at: self.issued_at.deep_view(),
            price: self.price.deep_view(),
            culture: self.culture.deep_view(),
            country: self.country.deep_view(),
            creator: self.creator.deep_view(),
            on_sale: self.on_sale,
            expires_at: self.expires_at.deep_view(),
            starts_at: self.starts_at.deep_view(),
            updated_at: self.updated_at.deep_view(),
            extra: self.extra.deep_view(),
            reference: self.reference.deep_view(),
            reference_hash: self.reference_hash.deep_view(),
        }
    }
}

impl TokenMetadataView {
    /// Both pointer/hash pairs jointly present or jointly absent, and every
    /// present hash exactly 32 bytes.
    pub open spec fn valid(self) -> bool {
        &&& (self.media is Some <==> self.media_hash is Some)
        &&& match self.media_hash {
            Some(h) => h.len() == 32,
            None => true,
        }
        &&& (self.reference is Some <==> self.reference_hash is Some)
        &&& match self.reference_hash {
            Some(h) => h.len() == 32,
            None => true,
        }
    }

    /// What validation returns: media pairing, media hash length, reference
    /// pairing, reference hash length, in that order; the first violation is
    /// reported.
    pub open spec fn validation(self) -> Result<(), ValidationError> {
        if (self.media is Some) != (self.media_hash is Some) {
            Err(ValidationError::UnpairedMedia)
        } else {
            match self.media_hash {
                Some(h) if h.len() != 32 => Err(
                    ValidationError::InvalidHashLength {
                        field: HashField::MediaHash,
                        expected: 32,
                        actual: h.len() as usize,
                    },
                ),
                _ => {
                    if (self.reference is Some) != (self.reference_hash is Some) {
                        Err(ValidationError::UnpairedReference)
                    } else {
                        match self.reference_hash {
                            Some(h) if h.len() != 32 => Err(
                                ValidationError::InvalidHashLength {
                                    field: HashField::ReferenceHash,
                                    expected: 32,
                                    actual: h.len() as usize,
                                },
                            ),
                            _ => Ok(()),
                        }
                    }
                },
            }
        }
    }

    /// Every variable-length field fits the codec's length headers.
    pub open spec fn wf(self) -> bool {
        &&& opt_str_fits(self.title)
        &&& opt_str_fits(self.description)
        &&& opt_str_fits(self.media)
        &&& opt_bytes_fits(self.media_hash)
        &&& opt_str_fits(self.issued_at)
        &&& opt_str_fits(self.price)
        &&& opt_str_fits(self.culture)
        &&& opt_str_fits(self.country)
        &&& opt_str_fits(self.creator)
        &&& opt_str_fits(self.expires_at)
        &&& opt_str_fits(self.starts_at)
        &&& opt_str_fits(self.updated_at)
        &&& opt_str_fits(self.extra)
        &&& opt_str_fits(self.reference)
        &&& opt_bytes_fits(self.reference_hash)
    }
}

/// Validation succeeds exactly on the records that satisfy every structural
/// invariant.
pub proof fn lemma_token_validation_exact(v: TokenMetadataView)
    ensures
        v.validation() is Ok <==> v.valid(),
{
}

/// A media pointer without its hash (or a hash without its pointer) is
/// reported as unpaired media, whatever the other fields hold.
pub proof fn lemma_token_unpaired_media(v: TokenMetadataView)
    requires
        (v.media is Some) != (v.media_hash is Some),
    ensures
        v.validation() == Err::<(), ValidationError>(ValidationError::UnpairedMedia),
{
}

/// When the media pair passes its checks, a reference pointer without its
/// hash (or a hash without its pointer) is reported as an unpaired reference.
pub proof fn lemma_token_unpaired_reference(v: TokenMetadataView)
    requires
        v.media is Some <==> v.media_hash is Some,
        v.media_hash matches Some(h) ==> h.len() == 32,
        (v.reference is Some) != (v.reference_hash is Some),
    ensures
        v.validation() == Err::<(), ValidationError>(ValidationError::UnpairedReference),
{
}

/// A present media hash of the wrong byte length is reported as such —
/// whatever the media pointer and the reference fields hold.
pub proof fn lemma_token_invalid_media_hash_length(v: TokenMetadataView, h: Seq<u8>)
    requires
        v.media is Some,
        v.media_hash == Some(h),
        h.len() != 32,
    ensures
        v.validation() == Err::<(), ValidationError>(
            ValidationError::InvalidHashLength {
                field: HashField::MediaHash,
                expected: 32,
                actual: h.len() as usize,
            },
        ),
{
}

/// When the media pair passes its checks, a present reference hash of the
/// wrong byte length is reported as such — whatever the pointer holds.
pub proof fn lemma_token_invalid_reference_hash_length(v: TokenMetadataView, h: Seq<u8>)
    requires
        v.media is Some <==> v.media_hash is Some,
        v.media_hash matches Some(mh) ==> mh.len() == 32,
        v.reference is Some,
        v.reference_hash == Some(h),
        h.len() != 32,
    ensures
        v.validation() == Err::<(), ValidationError>(
            ValidationError::InvalidHashLength {
                field: HashField::ReferenceHash,
                expected: 32,
                actual: h.len() as usize,
            },
        ),
{
}

/// With both pointers and both 32-byte hashes present, validation succeeds
/// — whatever the other fields hold.
pub proof fn lemma_token_validates_with_pairs(v: TokenMetadataView, mh: Seq<u8>, rh: Seq<u8>)
    requires
        v.media is Some,
        v.media_hash == Some(mh),
        mh.len() == 32,
        v.reference is Some,
        v.reference_hash == Some(rh),
        rh.len() == 32,
    ensures
        v.validation() == Ok::<(), ValidationError>(()),
{
}

// ---------------------------------------------------------------------------
// Binary layout of the record: fields in declaration order.
// ---------------------------------------------------------------------------

pub open spec fn spec_enc_token(v: TokenMetadataView) -> Seq<u8> {
    spec_enc_opt_str(v.title) + (spec_enc_opt_str(v.description) + (spec_enc_opt_str(v.media) + (
    spec_enc_opt_bytes(v.media_hash) + (spec_enc_opt_u64(v.copies) + (spec_enc_opt_str(
        v.issued_at,
    ) + (spec_enc_opt_str(v.price) + (spec_enc_opt_str(v.culture) + (spec_enc_opt_str(v.country)
        + (spec_enc_opt_str(v.creator) + (spec_enc_opt_bool(v.on_sale) + (spec_enc_opt_str(
        v.expires_at,
    ) + (spec_enc_opt_str(v.starts_at) + (spec_enc_opt_str(v.updated_at) + (spec_enc_opt_str(
        v.extra,
    ) + (spec_enc_opt_str(v.reference) + spec_enc_opt_bytes(v.reference_hash))))))))))))))))
}

pub open spec fn spec_dec_token(b: Seq<u8>) -> Option<TokenMetadataView> {
    match spec_dec_opt_str(b, 0) {
        None => None,
        Some((title, i1)) => match spec_dec_opt_str(b, i1) {
            None => None,
            Some((description, i2)) => match spec_dec_opt_str(b, i2) {
                None => None,
                Some((media, i3)) => match spec_dec_opt_bytes(b, i3) {
                    None => None,
                    Some((media_hash, i4)) => match spec_dec_opt_u64(b, i4) {
                        None => None,
                        Some((copies, i5)) => match spec_dec_opt_str(b, i5) {
                            None => None,
                            Some((issued_at, i6)) => match spec_dec_opt_str(b, i6) {
                                None => None,
                                Some((price, i7)) => match spec_dec_opt_str(b, i7) {
                                    None => None,
                                    Some((culture, i8)) => match spec_dec_opt_str(b, i8) {
                                        None => None,
                                        Some((country, i9)) => match spec_dec_opt_str(b, i9) {
                                            None => None,
                                            Some((creator, i10)) => match spec_dec_opt_bool(
                                                b,
                                                i10,
                                            ) {
                                                None => None,
                                                Some((on_sale, i11)) => match spec_dec_opt_str(
                                                    b,
                                                    i11,
                                                ) {
                                                    None => None,
                                                    Some((expires_at, i12)) => match spec_dec_opt_str(
                                                        b,
                                                        i12,
                                                    ) {
                                                        None => None,
                                                        Some((starts_at, i13)) => match spec_dec_opt_str(
                                                            b,
                                                            i13,
                                                        ) {
                                                            None => None,
                                                            Some((updated_at, i14)) => match spec_dec_opt_str(
                                                                b,
                                                                i14,
                                                            ) {
                                                                None => None,
                                                                Some((extra, i15)) => match spec_dec_opt_str(
                                                                    b,
                                                                    i15,
                                                                ) {
                                                                    None => None,
                                                                    Some((reference, i16)) => match spec_dec_opt_bytes(
                                                                        b,
                                                                        i16,
                                                                    ) {
                                                                        None => None,
                                                                        Some(
                                                                            (reference_hash, i17),
                                                                        ) => if i17 == b.len() {
                                                                            Some(
                                                                                TokenMetadataView {
                                                                                    title,
                                                                                    description,
                                                                                    media,
                                                                                    media_hash,
                                                                                    copies,
                                                                                    issued_at,
                                                                                    price,
                                                                                    culture,
                                                                                    country,
                                                                                    creator,
                                                                                    on_sale,
                                                                                    expires_at,
                                                                                    starts_at,
                                                                                    updated_at,
                                                                                    extra,
                                                                                    reference,
                                                                                    reference_hash,
                                                                                },
                                                                            )
                                                                        } else {
                                                                            None
                                                                        },
                                                                    },
                                                                },
                                                            },
                                                        },
                                                    },
                                                },
                                            },
                                        },
                                    },
                                },
                            },
                        },
                    },
                },
            },
        },
    }
}

/// Binary round trip: decoding the encoding of any well-formed record
/// recovers the record exactly.
#[verifier::rlimit(100)]
pub proof fn lemma_token_binary_round_trip(v: TokenMetadataView)
    requires
        v.wf(),
    ensures
        spec_dec_token(spec_enc_token(v)) == Some(v),
{
    let b = spec_enc_token(v);
    let t17 = spec_enc_opt_bytes(v.reference_hash);
    let t16 = spec_enc_opt_str(v.reference) + t17;
    let t15 = spec_enc_opt_str(v.extra) + t16;
    let t14 = spec_enc_opt_str(v.updated_at) + t15;
    let t13 = spec_enc_opt_str(v.starts_at) + t14;
    let t12 = spec_enc_opt_str(v.expires_at) + t13;
    let t11 = spec_enc_opt_bool(v.on_sale) + t12;
    let t10 = spec_enc_opt_str(v.creator) + t11;
    let t9 = spec_enc_opt_str(v.country) + t10;
    let t8 = spec_enc_opt_str(v.culture) + t9;
    let t7 = spec_enc_opt_str(v.price) + t8;
    let t6 = spec_enc_opt_str(v.issued_at) + t7;
    let t5 = spec_enc_opt_u64(v.copies) + t6;
    let t4 = spec_enc_opt_bytes(v.media_hash) + t5;
    let t3 = spec_enc_opt_str(v.media) + t4;
    let t2 = spec_enc_opt_str(v.description) + t3;
    assert(b.subrange(0, b.len() as int) =~= spec_enc_opt_str(v.title) + t2);
    crate::codec::lemma_chain_opt_str(b, 0, v.title, t2);
    let i1 = spec_enc_opt_str(v.title).len() as int;
    crate::codec::lemma_chain_opt_str(b, i1, v.description, t3);
    let i2 = i1 + spec_enc_opt_str(v.description).len();
    crate::codec::lemma_chain_opt_str(b, i2, v.media, t4);
    let i3 = i2 + spec_enc_opt_str(v.media).len();
    crate::codec::lemma_chain_opt_bytes(b, i3, v.media_hash, t5);
    let i4 = i3 + spec_enc_opt_bytes(v.media_hash).len();
    crate::codec::lemma_chain_opt_u64(b, i4, v.copies, t6);
    let i5 = i4 + spec_enc_opt_u64(v.copies).len();
    crate::codec::lemma_chain_opt_str(b, i5, v.issued_at, t7);
    let i6 = i5 + spec_enc_opt_str(v.issued_at).len();
    crate::codec::lemma_chain_opt_str(b, i6, v.price, t8);
    let i7 = i6 + spec_enc_opt_str(v.price).len();
    crate::codec::lemma_chain_opt_str(b, i7, v.culture, t9);
    let i8 = i7 + spec_enc_opt_str(v.culture).len();
    crate::codec::lemma_chain_opt_str(b, i8, v.country, t10);
    let i9 = i8 + spec_enc_opt_str(v.country).len();
    crate::codec::lemma_chain_opt_str(b, i9, v.creator, t11);
    let i10 = i9 + spec_enc_opt_str(v.creator).len();
    crate::codec::lemma_chain_opt_bool(b, i10, v.on_sale, t12);
    let i11 = i10 + spec_enc_opt_bool(v.on_sale).len();
    crate::codec::lemma_chain_opt_str(b, i11, v.expires_at, t13);
    let i12 = i11 + spec_enc_opt_str(v.expires_at).len();
    crate::codec::lemma_chain_opt_str(b, i12, v.starts_at, t14);
    let i13 = i12 + spec_enc_opt_str(v.starts_at).len();
    crate::codec::lemma_chain_opt_str(b, i13, v.updated_at, t15);
    let i14 = i13 + spec_enc_opt_str(v.updated_at).len();
    crate::codec::lemma_chain_opt_str(b, i14, v.extra, t16);
    let i15 = i14 + spec_enc_opt_str(v.extra).len();
    crate::codec::lemma_chain_opt_str(b, i15, v.reference, t17);
    let i16 = i15 + spec_enc_opt_str(v.reference).len();
    assert(b.subrange(i16, b.len() as int) =~= spec_enc_opt_bytes(v.reference_hash) + Seq::<
        u8,
    >::empty());
    crate::codec::lemma_chain_opt_bytes(b, i16, v.reference_hash, Seq::<u8>::empty());
}

impl TokenMetadata {
    /// Checks the structural invariants in a fixed order and reports the
    /// first violation; persisted state is never touched here, so a failed
    /// validation leaves it byte-for-byte unchanged.
    pub fn assert_valid(&self) -> (r: Result<(), ValidationError>)
        ensures
            r == self@.validation(),
    {
        if self.media.is_some() != self.media_hash.is_some() {
            return Err(ValidationError::UnpairedMedia);
        }
        match &self.media_hash {
            Some(h) => {
                if h.len() != 32 {
                    return Err(
                        ValidationError::InvalidHashLength {
                            field: HashField::MediaHash,
                            expected: 32,
                            actual: h.len(),
                        },
                    );
                }
            },
            None => {},
        }
        if self.reference.is_some() != self.reference_hash.is_some() {
            return Err(ValidationError::UnpairedReference);
        }
        match &self.reference_hash {
            Some(h) => {
                if h.len() != 32 {
                    return Err(
                        ValidationError::InvalidHashLength {
                            field: HashField::ReferenceHash,
                            expected: 32,
                            actual: h.len(),
                        },
                    );
                }
            },
            None => {},
        }
        Ok(())
    }

    /// The record's persisted binary form.
    #[verifier::rlimit(100)]
    pub fn to_bytes(&self) -> (out: Vec<u8>)
        ensures
            out@ == spec_enc_token(self@),
    {
        let mut out: Vec<u8> = Vec::new();
        enc_opt_str(&mut out, &self.title);
        let ghost o1 = out@;
        enc_opt_str(&mut out, &self.description);
        let ghost o2 = out@;
        enc_opt_str(&mut out, &self.media);
        let ghost o3 = out@;
        enc_opt_bytes(&mut out, &self.media_hash);
        let ghost o4 = out@;
        enc_opt_u64(&mut out, &self.copies);
        let ghost o5 = out@;
        enc_opt_str(&mut out, &self.issued_at);
        let ghost o6 = out@;
        enc_opt_str(&mut out, &self.price);
        let ghost o7 = out@;
        enc_opt_str(&mut out, &self.culture);
        let ghost o8 = out@;
        enc_opt_str(&mut out, &self.country);
        let ghost o9 = out@;
        enc_opt_str(&mut out, &self.creator);
        let ghost o10 = out@;
        enc_opt_bool(&mut out, &self.on_sale);
        let ghost o11 = out@;
        enc_opt_str(&mut out, &self.expires_at);
        let ghost o12 = out@;
        enc_opt_str(&mut out, &self.starts_at);
        let ghost o13 = out@;
        enc_opt_str(&mut out, &self.updated_at);
        let ghost o14 = out@;
        enc_opt_str(&mut out, &self.extra);
        let ghost o15 = out@;
        enc_opt_str(&mut out, &self.reference);
        let ghost o16 = out@;
        enc_opt_bytes(&mut out, &self.reference_hash);
        proof {
            let v = self@;
            let t17 = spec_enc_opt_bytes(v.reference_hash);
            let t16 = spec_enc_opt_str(v.reference) + t17;
            let t15 = spec_enc_opt_str(v.extra) + t16;
            let t14 = spec_enc_opt_str(v.updated_at) + t15;
            let t13 = spec_enc_opt_str(v.starts_at) + t14;
            let t12 = spec_enc_opt_str(v.expires_at) + t13;
            let t11 = spec_enc_opt_bool(v.on_sale) + t12;
            let t10 = spec_enc_opt_str(v.creator) + t11;
            let t9 = spec_enc_opt_str(v.country) + t10;
            let t8 = spec_enc_opt_str(v.culture) + t9;
            let t7 = spec_enc_opt_str(v.price) + t8;
            let t6 = spec_enc_opt_str(v.issued_at) + t7;
            let t5 = spec_enc_opt_u64(v.copies) + t6;
            let t4 = spec_enc_opt_bytes(v.media_hash) + t5;
            let t3 = spec_enc_opt_str(v.media) + t4;
            let t2 = spec_enc_opt_str(v.description) + t3;
            assert(o1 =~= spec_enc_opt_str(v.title));
            lemma_concat_associative(o1, spec_enc_opt_str(v.description), t3);
            lemma_concat_associative(o2, spec_enc_opt_str(v.media), t4);
            lemma_concat_associative(o3, spec_enc_opt_bytes(v.media_hash), t5);
            lemma_concat_associative(o4, spec_enc_opt_u64(v.copies), t6);
            lemma_concat_associative(o5, spec_enc_opt_str(v.issued_at), t7);
            lemma_concat_associative(o6, spec_enc_opt_str(v.price), t8);
            lemma_concat_associative(o7, spec_enc_opt_str(v.culture), t9);
            lemma_concat_associative(o8, spec_enc_opt_str(v.country), t10);
            lemma_concat_associative(o9, spec_enc_opt_str(v.creator), t11);
            lemma_concat_associative(o10, spec_enc_opt_bool(v.on_sale), t12);
            lemma_concat_associative(o11, spec_enc_opt_str(v.expires_at), t13);
            lemma_concat_associative(o12, spec_enc_opt_str(v.starts_at), t14);
            lemma_concat_associative(o13, spec_enc_opt_str(v.updated_at), t15);
            lemma_concat_associative(o14, spec_enc_opt_str(v.extra), t16);
            lemma_concat_associative(o15, spec_enc_opt_str(v.reference), t17);
            assert(out@ == o16 + t17);
            assert(spec_enc_token(v) == spec_enc_opt_str(v.title) + t2);
        }
        out
    }

    /// Decodes a persisted binary form; fails exactly when the bytes are not
    /// the encoding of a record under this layout.
    #[verifier::rlimit(100)]
    pub fn from_bytes(bytes: &[u8]) -> (r: Result<TokenMetadata, DecodeError>)
        ensures
            match r {
                Ok(m) => spec_dec_token(bytes@) == Some(m@),
                Err(e) => spec_dec_token(bytes@) is None && e == DecodeError::LayoutDecodeFailure,
            },
    {
        let (title, i1) = match dec_opt_str(bytes, 0) {
            None => {
                return Err(DecodeError::LayoutDecodeFailure);
            },
            Some(x) => x,
        };
        let (description, i2) = match dec_opt_str(bytes, i1) {
            None => {
                return Err(DecodeError::LayoutDecodeFailure);
            },
            Some(x) => x,
        };
        let (media, i3) = match dec_opt_str(bytes, i2) {
            None => {
                return Err(DecodeError::LayoutDecodeFailure);
            },
            Some(x) => x,
        };
        let (media_hash, i4) = match dec_opt_bytes(bytes, i3) {
            None => {
                return Err(DecodeError::LayoutDecodeFailure);
            },
            Some(x) => x,
        };
        let (copies, i5) = match dec_opt_u64(bytes, i4) {
            None => {
                return Err(DecodeError::LayoutDecodeFailure);
            },
            Some(x) => x,
        };
        let (issued_at, i6) = match dec_opt_str(bytes, i5) {
            None => {
                return Err(DecodeError::LayoutDecodeFailure);
            },
            Some(x) => x,
        };
        let (price, i7) = match dec_opt_str(bytes, i6) {
            None => {
                return Err(DecodeError::LayoutDecodeFailure);
            },
            Some(x) => x,
        };
        let (culture, i8) = match dec_opt_str(bytes, i7) {
            None => {
                return Err(DecodeError::LayoutDecodeFailure);
            },
            Some(x) => x,
        };
        let (country, i9) = match dec_opt_str(bytes, i8) {
            None => {
                return Err(DecodeError::LayoutDecodeFailure);
            },
            Some(x) => x,
        };
        let (creator, i10) = match dec_opt_str(bytes, i9) {
            None => {
                return Err(DecodeError::LayoutDecodeFailure);
            },
            Some(x) => x,
        };
        let (on_sale, i11) = match dec_opt_bool(bytes, i10) {
            None => {
                return Err(DecodeError::LayoutDecodeFailure);
            },
            Some(x) => x,
        };
        let (expires_at, i12) = match dec_opt_str(bytes, i11) {
            None => {
                return Err(DecodeError::LayoutDecodeFailure);
            },
            Some(x) => x,
        };
        let (starts_at, i13) = match dec_opt_str(bytes, i12) {
            None => {
                return Err(DecodeError::LayoutDecodeFailure);
            },
            Some(x) => x,
        };
        let (updated_at, i14) = match dec_opt_str(bytes, i13) {
            None => {
                return Err(DecodeError::LayoutDecodeFailure);
            },
            Some(x) => x,
        };
        let (extra, i15) = match dec_opt_str(bytes, i14) {
            None => {
                return Err(DecodeError::LayoutDecodeFailure);
            },
            Some(x) => x,
        };
        let (reference, i16) = match dec_opt_str(bytes, i15) {
            None => {
                return Err(DecodeError::LayoutDecodeFailure);
            },
            Some(x) => x,
        };
        let (reference_hash, i17) = match dec_opt_bytes(bytes, i16) {
            None => {
                return Err(DecodeError::LayoutDecodeFailure);
            },
            Some(x) => x,
        };
        if i17 != bytes.len() {
            return Err(DecodeError::LayoutDecodeFailure);
        }
        Ok(
            TokenMetadata {
                title,
                description,
                media,
                media_hash,
                copies,
                issued_at,
                price,
                culture,
                country,
                creator,
                on_sale,
                expires_at,
                starts_at,
                updated_at,
                extra,
                reference,
                reference_hash,
            },
        )
    }
}

} // verus!
