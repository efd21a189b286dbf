//! Per-token metadata under the previous layout. The type exists solely as
//! the decode target for bytes persisted before the schema change: migration
//! decodes it and immediately discards it, and normal application logic
//! never constructs it.

use vstd::prelude::*;
use crate::codec::{
    dec_opt_bool, dec_opt_bytes, dec_opt_str, dec_opt_u64, enc_opt_bool, enc_opt_bytes,
    enc_opt_str, enc_opt_u64, opt_bytes_fits, opt_str_fits, spec_enc_opt_bool,
    spec_enc_opt_bytes, spec_enc_opt_str, spec_enc_opt_u64, spec_dec_opt_bool,
    spec_dec_opt_bytes, spec_dec_opt_str, spec_dec_opt_u64,
};
use crate::errors::DecodeError;
use vstd::seq_lib::lemma_concat_associative;

verus! {

/// Metadata on the individual token level, as persisted before the schema
/// change: no `creator` field, and auction fields that the current layout
/// dropped.
#[derive(Clone, Debug, PartialEq)]
pub struct OldTokenMetadata {
    pub title: Option<String>,
    pub description: Option<String>,
    pub media: Option<String>,
    pub media_hash: Option<Vec<u8>>,
    pub copies: Option<u64>,
    pub issued_at: Option<String>,
    pub price: Option<String>,
    pub culture: Option<String>,
    pub country: Option<String>,
    /// Sale status.
    pub on_sale: Option<bool>,
    /// Auction status; dropped by the current layout.
    pub on_auction: Option<bool>,
    /// Bidder address; dropped by the current layout.
    pub adressbidder: Option<String>,
    /// Bidder address; dropped by the current layout.
    pub highestbidder: Option<String>,
    /// Bidder address; dropped by the current layout.
    pub lowestbidder: Option<String>,
    pub expires_at: Option<String>,
    pub starts_at: Option<String>,
    pub updated_at: Option<String>,
    pub extra: Option<String>,
    pub reference: Option<String>,
    pub reference_hash: Option<Vec<u8>>,
}

/// The mathematical model of a previous-layout token record.
pub struct OldTokenMetadataView {
    pub title: Option<Seq<char>>,
    pub description: Option<Seq<char>>,
    pub media: Option<Seq<char>>,
    pub media_hash: Option<Seq<u8>>,
    pub copies: Option<u64>,
    pub issued_at: Option<Seq<char>>,
    pub price: Option<Seq<char>>,
    pub culture: Option<Seq<char>>,
    pub country: Option<Seq<char>>,
    pub on_sale: Option<bool>,
    pub on_auction: Option<bool>,
    pub adressbidder: Option<Seq<char>>,
    pub highestbidder: Option<Seq<char>>,
    pub lowestbidder: Option<Seq<char>>,
    pub expires_at: Option<Seq<char>>,
    pub starts_at: Option<Seq<char>>,
    pub updated_at: Option<Seq<char>>,
    pub extra: Option<Seq<char>>,
    pub reference: Option<Seq<char>>,
    pub reference_hash: Option<Seq<u8>>,
}

impl View for OldTokenMetadata {
    type V = OldTokenMetadataView;

    open spec fn view(&self) -> OldTokenMetadataView {
        OldTokenMetadataView {
            title: self.title.deep_view(),
            description: self.description.deep_view(),
            media: self.media.deep_view(),
            media_hash: self.media_hash.deep_view(),
            copies: self.copies,
            issued_at: self.issued_at.deep_view(),
            price: self.price.deep_view(),
            culture: self.culture.deep_view(),
            country: self.country.deep_view(),
            on_sale: self.on_sale,
            on_auction: self.on_auction,
            adressbidder: self.adressbidder.deep_view(),
            highestbidder: self.highestbidder.deep_view(),
            lowestbidder: self.lowestbidder.deep_view(),
            expires_at: self.expires_at.deep_view(),
            starts_at: self.starts_at.deep_view(),
            updated_at: self.updated_at.deep_view(),
            extra: self.extra.deep_view(),
            reference: self.reference.deep_view(),
            reference_hash: self.reference_hash.deep_view(),
        }
    }
}

impl OldTokenMetadataView {
    /// Every variable-length field fits the codec's length headers.
    pub open spec fn wf(self) -> bool {
        &&& opt_str_fits(self.title)
        &&& opt_str_fits(self.description)
        &&& opt_str_fits(self.media)
        &&& opt_bytes_fits(self.media_hash)
        &&& opt_str_fits(self.issued_at)
        &&& opt_str_fits(self.price)
        &&& opt_str_fits(self.culture)
        &&& opt_str_fits(self.country)
        &&& opt_str_fits(self.adressbidder)
        &&& opt_str_fits(self.highestbidder)
        &&& opt_str_fits(self.lowestbidder)
        &&& opt_str_fits(self.expires_at)
        &&& opt_str_fits(self.starts_at)
        &&& opt_str_fits(self.updated_at)
        &&& opt_str_fits(self.extra)
        &&& opt_str_fits(self.reference)
        &&& opt_bytes_fits(self.reference_hash)
    }
}

// ---------------------------------------------------------------------------
// Binary layout of the record: fields in declaration order.
// ---------------------------------------------------------------------------

pub open spec fn spec_enc_old(v: OldTokenMetadataView) -> Seq<u8> {
    spec_enc_opt_str(v.title) + (spec_enc_opt_str(v.description) + (spec_enc_opt_str(v.media) + (
    spec_enc_opt_bytes(v.media_hash) + (spec_enc_opt_u64(v.copies) + (spec_enc_opt_str(
        v.issued_at,
    ) + (spec_enc_opt_str(v.price) + (spec_enc_opt_str(v.culture) + (spec_enc_opt_str(v.country)
        + (spec_enc_opt_bool(v.on_sale) + (spec_enc_opt_bool(v.on_auction) + (spec_enc_opt_str(
        v.adressbidder,
    ) + (spec_enc_opt_str(v.highestbidder) + (spec_enc_opt_str(v.lowestbidder) + (
    spec_enc_opt_str(v.expires_at) + (spec_enc_opt_str(v.starts_at) + (spec_enc_opt_str(
        v.updated_at,
    ) + (spec_enc_opt_str(v.extra) + (spec_enc_opt_str(v.reference) + spec_enc_opt_bytes(
        v.reference_hash,
    )))))))))))))))))))
}

pub open spec fn spec_dec_old(b: Seq<u8>) -> Option<OldTokenMetadataView> {
    match spec_dec_opt_str(b, 0) {
        None => None,
        Some((title, i1)) => match spec_dec_opt_str(b, i1) {
            None => None,
            Some((description, i2)) => match spec_dec_opt_str(b, i2) {
                None => None,
                Some((media, i3)) => match spec_dec_opt_bytes(b, i3) {
                    None => None,
                    Some((media_hash, i4)) => match spec_dec_opt_u64(b, i4) {
                        None => None,
                        Some((copies, i5)) => match spec_dec_opt_str(b, i5) {
                            None => None,
                            Some((issued_at, i6)) => match spec_dec_opt_str(b, i6) {
                                None => None,
                                Some((price, i7)) => match spec_dec_opt_str(b, i7) {
                                    None => None,
                                    Some((culture, i8)) => match spec_dec_opt_str(b, i8) {
                                        None => None,
                                        Some((country, i9)) => match spec_dec_opt_bool(b, i9) {
                                            None => None,
                                            Some((on_sale, i10)) => match spec_dec_opt_bool(
                                                b,
                                                i10,
                                            ) {
                                                None => None,
                                                Some((on_auction, i11)) => match spec_dec_opt_str(
                                                    b,
                                                    i11,
                                                ) {
                                                    None => None,
                                                    Some((adressbidder, i12)) => match spec_dec_opt_str(
                                                        b,
                                                        i12,
                                                    ) {
                                                        None => None,
                                                        Some((highestbidder, i13)) => match spec_dec_opt_str(
                                                            b,
                                                            i13,
                                                        ) {
                                                            None => None,
                                                            Some((lowestbidder, i14)) => match spec_dec_opt_str(
                                                                b,
                                                                i14,
                                                            ) {
                                                                None => None,
                                                                Some((expires_at, i15)) => match spec_dec_opt_str(
                                                                    b,
                                                                    i15,
                                                                ) {
                                                                    None => None,
                                                                    Some((starts_at, i16)) => match spec_dec_opt_str(
                                                                        b,
                                                                        i16,
                                                                    ) {
                                                                        None => None,
                                                                        Some(
                                                                            (updated_at, i17),
                                                                        ) => match spec_dec_opt_str(
                                                                            b,
                                                                            i17,
                                                                        ) {
                                                                            None => None,
                                                                            Some(
                                                                                (extra, i18),
                                                                            ) => match spec_dec_opt_str(
                                                                                b,
                                                                                i18,
                                                                            ) {
                                                                                None => None,
                                                                                Some(
                                                                                    (
                                                                                        reference,
                                                                                        i19,
                                                                                    ),
                                                                                ) => match spec_dec_opt_bytes(
                                                                                    b,
                                                                                    i19,
                                                                                ) {
                                                                                    None => None,
                                                                                    Some(
                                                                                        (
                                                                                            reference_hash,
                                                                                            i20,
                                                                                        ),
                                                                                    ) => if i20
                                                                                        == b.len() {
                                                                                        Some(
                                                                                            OldTokenMetadataView {
                                                                                                title,
                                                                                                description,
                                                                                                media,
                                                                                                media_hash,
                                                                                                copies,
                                                                                                issued_at,
                                                                                                price,
                                                                                                culture,
                                                                                                country,
                                                                                                on_sale,
                                                                                                on_auction,
                                                                                                adressbidder,
                                                                                                highestbidder,
                                                                                                lowestbidder,
                                                                                                expires_at,
                                                                                                starts_at,
                                                                                                updated_at,
                                                                                                extra,
                                                                                                reference,
                                                                                                reference_hash,
                                                                                            },
                                                                                        )
                                                                                    } else {
                                                                                        None
                                                                                    },
                                                                                },
                                                                            },
                                                                        },
                                                                    },
                                                                },
                                                            },
                                                        },
                                                    },
                                                },
                                            },
                                        },
                                    },
                                },
                            },
                        },
                    },
                },
            },
        },
    }
}

/// Binary round trip: decoding the encoding of any well-formed record
/// recovers the record exactly.
#[verifier::rlimit(100)]
pub proof fn lemma_old_binary_round_trip(v: OldTokenMetadataView)
    requires
        v.wf(),
    ensures
        spec_dec_old(spec_enc_old(v)) == Some(v),
{
    let b = spec_enc_old(v);
    let t20 = spec_enc_opt_bytes(v.reference_hash);
    let t19 = spec_enc_opt_str(v.reference) + t20;
    let t18 = spec_enc_opt_str(v.extra) + t19;
    let t17 = spec_enc_opt_str(v.updated_at) + t18;
    let t16 = spec_enc_opt_str(v.starts_at) + t17;
    let t15 = spec_enc_opt_str(v.expires_at) + t16;
    let t14 = spec_enc_opt_str(v.lowestbidder) + t15;
    let t13 = spec_enc_opt_str(v.highestbidder) + t14;
    let t12 = spec_enc_opt_str(v.adressbidder) + t13;
    let t11 = spec_enc_opt_bool(v.on_auction) + t12;
    let t10 = spec_enc_opt_bool(v.on_sale) + t11;
    let t9 = spec_enc_opt_str(v.country) + t10;
    let t8 = spec_enc_opt_str(v.culture) + t9;
    let t7 = spec_enc_opt_str(v.price) + t8;
    let t6 = spec_enc_opt_str(v.issued_at) + t7;
    let t5 = spec_enc_opt_u64(v.copies) + t6;
    let t4 = spec_enc_opt_bytes(v.media_hash) + t5;
    let t3 = spec_enc_opt_str(v.media) + t4;
    let t2 = spec_enc_opt_str(v.description) + t3;
    assert(b.subrange(0, b.len() as int) =~= spec_enc_opt_str(v.title) + t2);
    crate::codec::lemma_chain_opt_str(b, 0, v.title, t2);
    let i1 = spec_enc_opt_str(v.title).len() as int;
    crate::codec::lemma_chain_opt_str(b, i1, v.description, t3);
    let i2 = i1 + spec_enc_opt_str(v.description).len();
    crate::codec::lemma_chain_opt_str(b, i2, v.media, t4);
    let i3 = i2 + spec_enc_opt_str(v.media).len();
    crate::codec::lemma_chain_opt_bytes(b, i3, v.media_hash, t5);
    let i4 = i3 + spec_enc_opt_bytes(v.media_hash).len();
    crate::codec::lemma_chain_opt_u64(b, i4, v.copies, t6);
    let i5 = i4 + spec_enc_opt_u64(v.copies).len();
    crate::codec::lemma_chain_opt_str(b, i5, v.issued_at, t7);
    let i6 = i5 + spec_enc_opt_str(v.issued_at).len();
    crate::codec::lemma_chain_opt_str(b, i6, v.price, t8);
    let i7 = i6 + spec_enc_opt_str(v.price).len();
    crate::codec::lemma_chain_opt_str(b, i7, v.culture, t9);
    let i8 = i7 + spec_enc_opt_str(v.culture).len();
    crate::codec::lemma_chain_opt_str(b, i8, v.country, t10);
    let i9 = i8 + spec_enc_opt_str(v.country).len();
    crate::codec::lemma_chain_opt_bool(b, i9, v.on_sale, t11);
    let i10 = i9 + spec_enc_opt_bool(v.on_sale).len();
    crate::codec::lemma_chain_opt_bool(b, i10, v.on_auction, t12);
    let i11 = i10 + spec_enc_opt_bool(v.on_auction).len();
    crate::codec::lemma_chain_opt_str(b, i11, v.adressbidder, t13);
    let i12 = i11 + spec_enc_opt_str(v.adressbidder).len();
    crate::codec::lemma_chain_opt_str(b, i12, v.highestbidder, t14);
    let i13 = i12 + spec_enc_opt_str(v.highestbidder).len();
    crate::codec::lemma_chain_opt_str(b, i13, v.lowestbidder, t15);
    let i14 = i13 + spec_enc_opt_str(v.lowestbidder).len();
    crate::codec::lemma_chain_opt_str(b, i14, v.expires_at, t16);
    let i15 = i14 + spec_enc_opt_str(v.expires_at).len();
    crate::codec::lemma_chain_opt_str(b, i15, v.starts_at, t17);
    let i16 = i15 + spec_enc_opt_str(v.starts_at).len();
    crate::codec::lemma_chain_opt_str(b, i16, v.updated_at, t18);
    let i17 = i16 + spec_enc_opt_str(v.updated_at).len();
    crate::codec::lemma_chain_opt_str(b, i17, v.extra, t19);
    let i18 = i17 + spec_enc_opt_str(v.extra).len();
    crate::codec::lemma_chain_opt_str(b, i18, v.reference, t20);
    let i19 = i18 + spec_enc_opt_str(v.reference).len();
    assert(b.subrange(i19, b.len() as int) =~= spec_enc_opt_bytes(v.reference_hash) + Seq::<
        u8,
    >::empty());
    crate::codec::lemma_chain_opt_bytes(b, i19, v.reference_hash, Seq::<u8>::empty());
}

impl OldTokenMetadata {
    /// The record's persisted binary form under the previous layout.
    #[verifier::rlimit(100)]
    pub fn to_bytes(&self) -> (out: Vec<u8>)
        ensures
            out@ == spec_enc_old(self@),
    {
        let mut out: Vec<u8> = Vec::new();
        enc_opt_str(&mut out, &self.title);
        let ghost o1 = out@;
        enc_opt_str(&mut out, &self.description);
        let ghost o2 = out@;
        enc_opt_str(&mut out, &self.media);
        let ghost o3 = out@;
        enc_opt_bytes(&mut out, &self.media_hash);
        let ghost o4 = out@;
        enc_opt_u64(&mut out, &self.copies);
        let ghost o5 = out@;
        enc_opt_str(&mut out, &self.issued_at);
        let ghost o6 = out@;
        enc_opt_str(&mut out, &self.price);
        let ghost o7 = out@;
        enc_opt_str(&mut out, &self.culture);
        let ghost o8 = out@;
        enc_opt_str(&mut out, &self.country);
        let ghost o9 = out@;
        enc_opt_bool(&mut out, &self.on_sale);
        let ghost o10 = out@;
        enc_opt_bool(&mut out, &self.on_auction);
        let ghost o11 = out@;
        enc_opt_str(&mut out, &self.adressbidder);
        let ghost o12 = out@;
        enc_opt_str(&mut out, &self.highestbidder);
        let ghost o13 = out@;
        enc_opt_str(&mut out, &self.lowestbidder);
        let ghost o14 = out@;
        enc_opt_str(&mut out, &self.expires_at);
        let ghost o15 = out@;
        enc_opt_str(&mut out, &self.starts_at);
        let ghost o16 = out@;
        enc_opt_str(&mut out, &self.updated_at);
        let ghost o17 = out@;
        enc_opt_str(&mut out, &self.extra);
        let ghost o18 = out@;
        enc_opt_str(&mut out, &self.reference);
        let ghost o19 = out@;
        enc_opt_bytes(&mut out, &self.reference_hash);
        proof {
            let v = self@;
            let t20 = spec_enc_opt_bytes(v.reference_hash);
            let t19 = spec_enc_opt_str(v.reference) + t20;
            let t18 = spec_enc_opt_str(v.extra) + t19;
            let t17 = spec_enc_opt_str(v.updated_at) + t18;
            let t16 = spec_enc_opt_str(v.starts_at) + t17;
            let t15 = spec_enc_opt_str(v.expires_at) + t16;
            let t14 = spec_enc_opt_str(v.lowestbidder) + t15;
            let t13 = spec_enc_opt_str(v.highestbidder) + t14;
            let t12 = spec_enc_opt_str(v.adressbidder) + t13;
            let t11 = spec_enc_opt_bool(v.on_auction) + t12;
            let t10 = spec_enc_opt_bool(v.on_sale) + t11;
            let t9 = spec_enc_opt_str(v.country) + t10;
            let t8 = spec_enc_opt_str(v.culture) + t9;
            let t7 = spec_enc_opt_str(v.price) + t8;
            let t6 = spec_enc_opt_str(v.issued_at) + t7;
            let t5 = spec_enc_opt_u64(v.copies) + t6;
            let t4 = spec_enc_opt_bytes(v.media_hash) + t5;
            let t3 = spec_enc_opt_str(v.media) + t4;
            let t2 = spec_enc_opt_str(v.description) + t3;
            assert(o1 =~= spec_enc_opt_str(v.title));
            lemma_concat_associative(o1, spec_enc_opt_str(v.description), t3);
            lemma_concat_associative(o2, spec_enc_opt_str(v.media), t4);
            lemma_concat_associative(o3, spec_enc_opt_bytes(v.media_hash), t5);
            lemma_concat_associative(o4, spec_enc_opt_u64(v.copies), t6);
            lemma_concat_associative(o5, spec_enc_opt_str(v.issued_at), t7);
            lemma_concat_associative(o6, spec_enc_opt_str(v.price), t8);
            lemma_concat_associative(o7, spec_enc_opt_str(v.culture), t9);
            lemma_concat_associative(o8, spec_enc_opt_str(v.country), t10);
            lemma_concat_associative(o9, spec_enc_opt_bool(v.on_sale), t11);
            lemma_concat_associative(o10, spec_enc_opt_bool(v.on_auction), t12);
            lemma_concat_associative(o11, spec_enc_opt_str(v.adressbidder), t13);
            lemma_concat_associative(o12, spec_enc_opt_str(v.highestbidder), t14);
            lemma_concat_associative(o13, spec_enc_opt_str(v.lowestbidder), t15);
            lemma_concat_associative(o14, spec_enc_opt_str(v.expires_at), t16);
            lemma_concat_associative(o15, spec_enc_opt_str(v.starts_at), t17);
            lemma_concat_associative(o16, spec_enc_opt_str(v.updated_at), t18);
            lemma_concat_associative(o17, spec_enc_opt_str(v.extra), t19);
            lemma_concat_associative(o18, spec_enc_opt_str(v.reference), t20);
            assert(out@ == o19 + t20);
            assert(spec_enc_old(v) == spec_enc_opt_str(v.title) + t2);
        }
        out
    }

    /// Decodes a persisted binary form under the previous layout; fails
    /// exactly when the bytes are not the encoding of a record under it.
    #[verifier::rlimit(100)]
    pub fn from_bytes(bytes: &[u8]) -> (r: Result<OldTokenMetadata, DecodeError>)
        ensures
            match r {
                Ok(m) => spec_dec_old(bytes@) == Some(m@),
                Err(e) => spec_dec_old(bytes@) is None && e == DecodeError::LayoutDecodeFailure,
            },
    {
        let (title, i1) = match dec_opt_str(bytes, 0) {
            None => {
                return Err(DecodeError::LayoutDecodeFailure);
            },
            Some(x) => x,
        };
        let (description, i2) = match dec_opt_str(bytes, i1) {
            None => {
                return Err(DecodeError::LayoutDecodeFailure);
            },
            Some(x) => x,
        };
        let (media, i3) = match dec_opt_str(bytes, i2) {
            None => {
                return Err(DecodeError::LayoutDecodeFailure);
            },
            Some(x) => x,
        };
        let (media_hash, i4) = match dec_opt_bytes(bytes, i3) {
            None => {
                return Err(DecodeError::LayoutDecodeFailure);
            },
            Some(x) => x,
        };
        let (copies, i5) = match dec_opt_u64(bytes, i4) {
            None => {
                return Err(DecodeError::LayoutDecodeFailure);
            },
            Some(x) => x,
        };
        let (issued_at, i6) = match dec_opt_str(bytes, i5) {
            None => {
                return Err(DecodeError::LayoutDecodeFailure);
            },
            Some(x) => x,
        };
        let (price, i7) = match dec_opt_str(bytes, i6) {
            None => {
                return Err(DecodeError::LayoutDecodeFailure);
            },
            Some(x) => x,
        };
        let (culture, i8) = match dec_opt_str(bytes, i7) {
            None => {
                return Err(DecodeError::LayoutDecodeFailure);
            },
            Some(x) => x,
        };
        let (country, i9) = match dec_opt_str(bytes, i8) {
            None => {
                return Err(DecodeError::LayoutDecodeFailure);
            },
            Some(x) => x,
        };
        let (on_sale, i10) = match dec_opt_bool(bytes, i9) {
            None => {
                return Err(DecodeError::LayoutDecodeFailure);
            },
            Some(x) => x,
        };
        let (on_auction, i11) = match dec_opt_bool(bytes, i10) {
            None => {
                return Err(DecodeError::LayoutDecodeFailure);
            },
            Some(x) => x,
        };
        let (adressbidder, i12) = match dec_opt_str(bytes, i11) {
            None => {
                return Err(DecodeError::LayoutDecodeFailure);
            },
            Some(x) => x,
        };
        let (highestbidder, i13) = match dec_opt_str(bytes, i12) {
            None => {
                return Err(DecodeError::LayoutDecodeFailure);
            },
            Some(x) => x,
        };
        let (lowestbidder, i14) = match dec_opt_str(bytes, i13) {
            None => {
                return Err(DecodeError::LayoutDecodeFailure);
            },
            Some(x) => x,
        };
        let (expires_at, i15) = match dec_opt_str(bytes, i14) {
            None => {
                return Err(DecodeError::LayoutDecodeFailure);
            },
            Some(x) => x,
        };
        let (starts_at, i16) = match dec_opt_str(bytes, i15) {
            None => {
                return Err(DecodeError::LayoutDecodeFailure);
            },
            Some(x) => x,
        };
        let (updated_at, i17) = match dec_opt_str(bytes, i16) {
            None => {
                return Err(DecodeError::LayoutDecodeFailure);
            },
            Some(x) => x,
        };
        let (extra, i18) = match dec_opt_str(bytes, i17) {
            None => {
                return Err(DecodeError::LayoutDecodeFailure);
            },
            Some(x) => x,
        };
        let (reference, i19) = match dec_opt_str(bytes, i18) {
            None => {
                return Err(DecodeError::LayoutDecodeFailure);
            },
            Some(x) => x,
        };
        let (reference_hash, i20) = match dec_opt_bytes(bytes, i19) {
            None => {
                return Err(DecodeError::LayoutDecodeFailure);
            },
            Some(x) => x,
        };
        if i20 != bytes.len() {
            return Err(DecodeError::LayoutDecodeFailure);
        }
        Ok(
            OldTokenMetadata {
                title,
                description,
                media,
                media_hash,
                copies,
                issued_at,
                price,
                culture,
                country,
                on_sale,
                on_auction,
                adressbidder,
                highestbidder,
                lowestbidder,
                expires_at,
                starts_at,
                updated_at,
                extra,
                reference,
                reference_hash,
            },
        )
    }
}

} // verus!
