//! One-shot schema migration: re-reads persisted bytes under the previous
//! per-token layout and rebuilds the record under the current layout.

use vstd::prelude::*;
use crate::errors::DecodeError;
use crate::previous::{spec_dec_old, OldTokenMetadata, OldTokenMetadataView};
use crate::token::{TokenMetadata, TokenMetadataView};

verus! {

/// The sentinel installed as `creator` for tokens minted before the field
/// existed: a 64-character filler, deliberately not a real identity.
pub open spec fn placeholder_creator() -> Seq<char> {
    "aaaaaaaaaaaaaaaaaaaaaaaaaaaaaaaaaaaaaaaaaaaaaaaaaaaaaaaaaaaaaaaa"@
}

/// The current-layout record a previous-layout record migrates to: every
/// field that exists in both layouts carries over unchanged, the auction and
/// bidder fields are dropped, and `creator` is synthesized as the
/// placeholder sentinel.
pub open spec fn spec_migrated(old: OldTokenMetadataView) -> TokenMetadataView {
    TokenMetadataView {
        title: old.title,
        description: old.description,
        media: old.media,
        media_hash: old.media_hash,
        copies: old.copies,
        issued_at: old.issued_at,
        price: old.price,
        culture: old.culture,
        country: old.country,
        creator: Some(placeholder_creator()),
        on_sale: old.on_sale,
        expires_at: old.expires_at,
        starts_at: old.starts_at,
        updated_at: old.updated_at,
        extra: old.extra,
        reference: old.reference,
        reference_hash: old.reference_hash,
    }
}

impl TokenMetadata {
    /// Decodes the persisted state under the previous layout and returns the
    /// record rewritten under the current layout; the caller installs the
    /// result as the new persisted state in full. Fails exactly when the
    /// bytes do not decode under the previous layout — as they will not once
    /// they are already in the current layout — and then changes nothing.
    pub fn migrate(state: &[u8]) -> (r: Result<TokenMetadata, DecodeError>)
        ensures
            match r {
                Ok(m) => spec_dec_old(state@) matches Some(old) && m@ == spec_migrated(old),
                Err(e) => spec_dec_old(state@) is None && e == DecodeError::LayoutDecodeFailure,
            },
    {
        let old_state: OldTokenMetadata = match OldTokenMetadata::from_bytes(state) {
            Ok(m) => m,
            Err(e) => {
                return Err(e);
            },
        };
        let creator: String = "aaaaaaaaaaaaaaaaaaaaaaaaaaaaaaaaaaaaaaaaaaaaaaaaaaaaaaaaaaaaaaaa"
            .to_owned();
        Ok(
            TokenMetadata {
                title: old_state.title,
                description: old_state.description,
                media: old_state.media,
                media_hash: old_state.media_hash,
                copies: old_state.copies,
                issued_at: old_state.issued_at,
                price: old_state.price,
                culture: old_state.culture,
                country: old_state.country,
                creator: Some(creator),
                on_sale: old_state.on_sale,
                expires_at: old_state.expires_at,
                starts_at: old_state.starts_at,
                updated_at: old_state.updated_at,
                extra: old_state.extra,
                reference: old_state.reference,
                reference_hash: old_state.reference_hash,
            },
        )
    }
}

} // verus!
