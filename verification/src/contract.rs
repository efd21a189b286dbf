//! Contract-level metadata: the record one NFT contract instance carries,
//! its structural validation, and its binary codec.

use vstd::prelude::*;
use crate::codec::{
    dec_opt_bytes, dec_opt_str, dec_str, enc_opt_bytes, enc_opt_str, enc_str, opt_bytes_fits,
    opt_str_fits, spec_enc_opt_bytes, spec_enc_opt_str, spec_enc_str, spec_dec_opt_bytes,
    spec_dec_opt_str, spec_dec_str, str_eq, str_fits,
};
use crate::errors::{DecodeError, HashField, ValidationError};

verus! {

/// This spec can be treated like a version of the standard.
pub const NFT_METADATA_SPEC: &'static str = "nft-1.0.0";

/// The exact version tag a valid contract record must carry.
pub open spec fn spec_version() -> Seq<char> {
    NFT_METADATA_SPEC@
}

/// Metadata for the NFT contract itself.
#[derive(Clone, Debug, PartialEq)]
pub struct NFTContractMetadata {
    /// Required, essentially a version tag like "nft-1.0.0".
    pub spec: String,
    /// Required, ex. "Mosaics".
    pub name: String,
    /// Required, ex. "MOSAIC".
    pub symbol: String,
    /// Data URL.
    pub icon: Option<String>,
    /// Centralized gateway known to have reliable access to decentralized
    /// storage assets referenced by `reference` or `media` URLs.
    pub base_uri: Option<String>,
    /// URL to a JSON file with more info.
    pub reference: Option<String>,
    /// Sha256 hash of the content behind `reference`; required if
    /// `reference` is included.
    pub reference_hash: Option<Vec<u8>>,
}

/// The mathematical model of a contract metadata record.
pub struct NFTContractMetadataView {
    pub spec: Seq<char>,
    pub name: Seq<char>,
    pub symbol: Seq<char>,
    pub icon: Option<Seq<char>>,
    pub base_uri: Option<Seq<char>>,
    pub reference: Option<Seq<char>>,
    pub reference_hash: Option<Seq<u8>>,
}

impl View for NFTContractMetadata {
    type V = NFTContractMetadataView;

    open spec fn view(&self) -> NFTContractMetadataView {
        NFTContractMetadataView {
            spec: self.spec@,
            name: self.name@,
            symbol: self.symbol@,
            icon: self.icon.deep_view(),
            base_uri: self.base_uri.deep_view(),
            reference: self.reference.deep_view(),
            reference_hash: self.reference_hash.deep_view(),
        }
    }
}

impl NFTContractMetadataView {
    /// Every structural invariant of the record: exact version tag, the
    /// reference pairing, and the 32-byte hash length.
    pub open spec fn valid(self) -> bool {
        &&& self.spec == spec_version()
        &&& (self.reference is Some <==> self.reference_hash is Some)
        &&& match self.reference_hash {
            Some(h) => h.len() == 32,
            None => true,
        }
    }

    /// What validation returns: the invariants are checked in a fixed order
    /// and the first violation is reported.
    pub open spec fn validation(self) -> Result<(), ValidationError> {
        if self.spec != spec_version() {
            Err(ValidationError::SpecVersionMismatch)
        } else if (self.reference is Some) != (self.reference_hash is Some) {
            Err(ValidationError::UnpairedReference)
        } else {
            match self.reference_hash {
                Some(h) => if h.len() != 32 {
                    Err(
                        ValidationError::InvalidHashLength {
                            field: HashField::ReferenceHash,
                            expected: 32,
                            actual: h.len() as usize,
                        },
                    )
                } else {
                    Ok(())
                },
                None => Ok(()),
            }
        }
    }

    /// Every variable-length field fits the codec's length headers.
    pub open spec fn wf(self) -> bool {
        &&& str_fits(self.spec)
        &&& str_fits(self.name)
        &&& str_fits(self.symbol)
        &&& opt_str_fits(self.icon)
        &&& opt_str_fits(self.base_uri)
        &&& opt_str_fits(self.reference)
        &&& opt_bytes_fits(self.reference_hash)
    }
}

/// Validation succeeds exactly on the records that satisfy every structural
/// invariant.
pub proof fn lemma_contract_validation_exact(v: NFTContractMetadataView)
    ensures
        v.validation() is Ok <==> v.valid(),
{
}

/// When the version tag is right, a reference pointer without its hash (or a
/// hash without its pointer) is reported as an unpaired reference, whatever
/// the other fields hold.
pub proof fn lemma_contract_unpaired_reference(v: NFTContractMetadataView)
    requires
        v.spec == spec_version(),
        (v.reference is Some) != (v.reference_hash is Some),
    ensures
        v.validation() == Err::<(), ValidationError>(ValidationError::UnpairedReference),
{
}

/// When the version tag is right and the reference pair is jointly present,
/// a hash of the wrong byte length is reported as such — whatever the
/// pointer field holds.
pub proof fn lemma_contract_invalid_hash_length(v: NFTContractMetadataView, h: Seq<u8>)
    requires
        v.spec == spec_version(),
        v.reference is Some,
        v.reference_hash == Some(h),
        h.len() != 32,
    ensures
        v.validation() == Err::<(), ValidationError>(
            ValidationError::InvalidHashLength {
                field: HashField::ReferenceHash,
                expected: 32,
                actual: h.len() as usize,
            },
        ),
{
}

/// With the version tag right and the reference pointer and a 32-byte hash
/// both present, validation succeeds — whatever the other fields hold.
pub proof fn lemma_contract_validates_with_pair(v: NFTContractMetadataView, h: Seq<u8>)
    requires
        v.spec == spec_version(),
        v.reference is Some,
        v.reference_hash == Some(h),
        h.len() == 32,
    ensures
        v.validation() == Ok::<(), ValidationError>(()),
{
}

// ---------------------------------------------------------------------------
// Binary layout of the record: fields in declaration order.
// ---------------------------------------------------------------------------

pub open spec fn spec_enc_contract(v: NFTContractMetadataView) -> Seq<u8> {
    spec_enc_str(v.spec) + (spec_enc_str(v.name) + (spec_enc_str(v.symbol) + (spec_enc_opt_str(
        v.icon,
    ) + (spec_enc_opt_str(v.base_uri) + (spec_enc_opt_str(v.reference) + spec_enc_opt_bytes(
        v.reference_hash,
    ))))))
}

pub open spec fn spec_dec_contract(b: Seq<u8>) -> Option<NFTContractMetadataView> {
    match spec_dec_str(b, 0) {
        None => None,
        Some((spec, i1)) => match spec_dec_str(b, i1) {
            None => None,
            Some((name, i2)) => match spec_dec_str(b, i2) {
                None => None,
                Some((symbol, i3)) => match spec_dec_opt_str(b, i3) {
                    None => None,
                    Some((icon, i4)) => match spec_dec_opt_str(b, i4) {
                        None => None,
                        Some((base_uri, i5)) => match spec_dec_opt_str(b, i5) {
                            None => None,
                            Some((reference, i6)) => match spec_dec_opt_bytes(b, i6) {
                                None => None,
                                Some((reference_hash, i7)) => if i7 == b.len() {
                                    Some(
                                        NFTContractMetadataView {
                                            spec,
                                            name,
                                            symbol,
                                            icon,
                                            base_uri,
                                            reference,
                                            reference_hash,
                                        },
                                    )
                                } else {
                                    None
                                },
                            },
                        },
                    },
                },
            },
        },
    }
}

/// Binary round trip: decoding the encoding of any well-formed record
/// recovers the record exactly.
pub proof fn lemma_contract_binary_round_trip(v: NFTContractMetadataView)
    requires
        v.wf(),
    ensures
        spec_dec_contract(spec_enc_contract(v)) == Some(v),
{
    let b = spec_enc_contract(v);
    let r1 = spec_enc_str(v.name) + (spec_enc_str(v.symbol) + (spec_enc_opt_str(v.icon) + (
    spec_enc_opt_str(v.base_uri) + (spec_enc_opt_str(v.reference) + spec_enc_opt_bytes(
        v.reference_hash,
    )))));
    let r2 = spec_enc_str(v.symbol) + (spec_enc_opt_str(v.icon) + (spec_enc_opt_str(v.base_uri) + (
    spec_enc_opt_str(v.reference) + spec_enc_opt_bytes(v.reference_hash))));
    let r3 = spec_enc_opt_str(v.icon) + (spec_enc_opt_str(v.base_uri) + (spec_enc_opt_str(
        v.reference,
    ) + spec_enc_opt_bytes(v.reference_hash)));
    let r4 = spec_enc_opt_str(v.base_uri) + (spec_enc_opt_str(v.reference) + spec_enc_opt_bytes(
        v.reference_hash,
    ));
    let r5 = spec_enc_opt_str(v.reference) + spec_enc_opt_bytes(v.reference_hash);
    let r6 = spec_enc_opt_bytes(v.reference_hash);
    assert(b.subrange(0, b.len() as int) =~= spec_enc_str(v.spec) + r1);
    crate::codec::lemma_chain_str(b, 0, v.spec, r1);
    let i1 = spec_enc_str(v.spec).len() as int;
    crate::codec::lemma_chain_str(b, i1, v.name, r2);
    let i2 = i1 + spec_enc_str(v.name).len();
    crate::codec::lemma_chain_str(b, i2, v.symbol, r3);
    let i3 = i2 + spec_enc_str(v.symbol).len();
    crate::codec::lemma_chain_opt_str(b, i3, v.icon, r4);
    let i4 = i3 + spec_enc_opt_str(v.icon).len();
    crate::codec::lemma_chain_opt_str(b, i4, v.base_uri, r5);
    let i5 = i4 + spec_enc_opt_str(v.base_uri).len();
    crate::codec::lemma_chain_opt_str(b, i5, v.reference, r6);
    let i6 = i5 + spec_enc_opt_str(v.reference).len();
    assert(b.subrange(i6, b.len() as int) =~= spec_enc_opt_bytes(v.reference_hash) + Seq::<
        u8,
    >::empty());
    crate::codec::lemma_chain_opt_bytes(b, i6, v.reference_hash, Seq::<u8>::empty());
}

impl NFTContractMetadata {
    /// Checks the structural invariants in a fixed order and reports the
    /// first violation; persisted state is never touched here, so a failed
    /// validation leaves it byte-for-byte unchanged.
    pub fn assert_valid(&self) -> (r: Result<(), ValidationError>)
        ensures
            r == self@.validation(),
    {
        if !str_eq(self.spec.as_str(), NFT_METADATA_SPEC) {
            return Err(ValidationError::SpecVersionMismatch);
        }
        if self.reference.is_some() != self.reference_hash.is_some() {
            return Err(ValidationError::UnpairedReference);
        }
        match &self.reference_hash {
            Some(h) => {
                if h.len() != 32 {
                    return Err(
                        ValidationError::InvalidHashLength {
                            field: HashField::ReferenceHash,
                            expected: 32,
                            actual: h.len(),
                        },
                    );
                }
            },
            None => {},
        }
        Ok(())
    }

    /// The record's persisted binary form.
    #[verifier::rlimit(50)]
    pub fn to_bytes(&self) -> (out: Vec<u8>)
        ensures
            out@ == spec_enc_contract(self@),
    {
        let mut out: Vec<u8> = Vec::new();
        enc_str(&mut out, self.spec.as_str());
        enc_str(&mut out, self.name.as_str());
        enc_str(&mut out, self.symbol.as_str());
        enc_opt_str(&mut out, &self.icon);
        enc_opt_str(&mut out, &self.base_uri);
        enc_opt_str(&mut out, &self.reference);
        enc_opt_bytes(&mut out, &self.reference_hash);
        proof {
            assert(out@ =~= spec_enc_contract(self@));
        }
        out
    }

    /// Decodes a persisted binary form; fails exactly when the bytes are not
    /// the encoding of a record under this layout.
    pub fn from_bytes(bytes: &[u8]) -> (r: Result<NFTContractMetadata, DecodeError>)
        ensures
            match r {
                Ok(m) => spec_dec_contract(bytes@) == Some(m@),
                Err(e) => spec_dec_contract(bytes@) is None && e
                    == DecodeError::LayoutDecodeFailure,
            },
    {
        let (spec, i1) = match dec_str(bytes, 0) {
            None => {
                return Err(DecodeError::LayoutDecodeFailure);
            },
            Some(x) => x,
        };
        let (name, i2) = match dec_str(bytes, i1) {
            None => {
                return Err(DecodeError::LayoutDecodeFailure);
            },
            Some(x) => x,
        };
        let (symbol, i3) = match dec_str(bytes, i2) {
            None => {
                return Err(DecodeError::LayoutDecodeFailure);
            },
            Some(x) => x,
        };
        let (icon, i4) = match dec_opt_str(bytes, i3) {
            None => {
                return Err(DecodeError::LayoutDecodeFailure);
            },
            Some(x) => x,
        };
        let (base_uri, i5) = match dec_opt_str(bytes, i4) {
            None => {
                return Err(DecodeError::LayoutDecodeFailure);
            },
            Some(x) => x,
        };
        let (reference, i6) = match dec_opt_str(bytes, i5) {
            None => {
                return Err(DecodeError::LayoutDecodeFailure);
            },
            Some(x) => x,
        };
        let (reference_hash, i7) = match dec_opt_bytes(bytes, i6) {
            None => {
                return Err(DecodeError::LayoutDecodeFailure);
            },
            Some(x) => x,
        };
        if i7 != bytes.len() {
            return Err(DecodeError::LayoutDecodeFailure);
        }
        Ok(NFTContractMetadata { spec, name, symbol, icon, base_uri, reference, reference_hash })
    }
}

/// Offers details on the contract-level metadata.
pub trait NonFungibleTokenMetadataProvider {
    fn nft_metadata(&self) -> NFTContractMetadata;
}

} // verus!
