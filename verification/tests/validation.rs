use nft_metadata::contract::{NFTContractMetadata, NonFungibleTokenMetadataProvider, NFT_METADATA_SPEC};
use nft_metadata::errors::{HashField, ValidationError};
use nft_metadata::token::TokenMetadata;

fn plain_contract() -> NFTContractMetadata {
    NFTContractMetadata {
        spec: NFT_METADATA_SPEC.to_string(),
        name: "Mosaics".to_string(),
        symbol: "MOSAIC".to_string(),
        icon: None,
        base_uri: None,
        reference: None,
        reference_hash: None,
    }
}

fn plain_token() -> TokenMetadata {
    TokenMetadata {
        title: None,
        description: None,
        media: None,
        media_hash: None,
        copies: None,
        issued_at: None,
        price: None,
        culture: None,
        country: None,
        creator: None,
        on_sale: None,
        expires_at: None,
        starts_at: None,
        updated_at: None,
        extra: None,
        reference: None,
        reference_hash: None,
    }
}

#[test]
fn contract_with_paired_reference_validates() {
    let m = NFTContractMetadata {
        spec: "nft-1.0.0".to_string(),
        name: "Mosaics".to_string(),
        symbol: "MOSAIC".to_string(),
        icon: None,
        base_uri: None,
        reference: Some("https://x/meta.json".to_string()),
        reference_hash: Some(vec![7u8; 32]),
    };
    assert_eq!(m.assert_valid(), Ok(()));
}

#[test]
fn contract_with_hash_omitted_is_unpaired() {
    let m = NFTContractMetadata {
        spec: "nft-1.0.0".to_string(),
        name: "Mosaics".to_string(),
        symbol: "MOSAIC".to_string(),
        icon: None,
        base_uri: None,
        reference: Some("https://x/meta.json".to_string()),
        reference_hash: None,
    };
    assert_eq!(m.assert_valid(), Err(ValidationError::UnpairedReference));
}

#[test]
fn contract_with_pointer_omitted_is_unpaired() {
    let mut m = plain_contract();
    m.reference_hash = Some(vec![7u8; 32]);
    assert_eq!(m.assert_valid(), Err(ValidationError::UnpairedReference));
}

#[test]
fn contract_with_wrong_spec_tag_fails() {
    let mut m = plain_contract();
    m.spec = "nft-2.0.0".to_string();
    assert_eq!(m.assert_valid(), Err(ValidationError::SpecVersionMismatch));
}

#[test]
fn contract_with_short_hash_reports_length() {
    let mut m = plain_contract();
    m.reference = Some("https://x/meta.json".to_string());
    m.reference_hash = Some(vec![7u8; 31]);
    assert_eq!(
        m.assert_valid(),
        Err(ValidationError::InvalidHashLength {
            field: HashField::ReferenceHash,
            expected: 32,
            actual: 31,
        })
    );
}

#[test]
fn contract_without_optional_fields_validates() {
    assert_eq!(plain_contract().assert_valid(), Ok(()));
}

#[test]
fn token_with_unpaired_media_fails() {
    let mut m = plain_token();
    m.media = Some("https://m".to_string());
    assert_eq!(m.assert_valid(), Err(ValidationError::UnpairedMedia));
}

#[test]
fn token_with_long_media_hash_reports_length() {
    let mut m = plain_token();
    m.media = Some("https://m".to_string());
    m.media_hash = Some(vec![1u8; 33]);
    // The reference pair is also unpaired here, but the media check comes first.
    m.reference_hash = Some(vec![1u8; 32]);
    assert_eq!(
        m.assert_valid(),
        Err(ValidationError::InvalidHashLength {
            field: HashField::MediaHash,
            expected: 32,
            actual: 33,
        })
    );
}

#[test]
fn token_with_unpaired_reference_fails() {
    let mut m = plain_token();
    m.media = Some("https://m".to_string());
    m.media_hash = Some(vec![1u8; 32]);
    m.reference_hash = Some(vec![2u8; 32]);
    assert_eq!(m.assert_valid(), Err(ValidationError::UnpairedReference));
}

#[test]
fn token_with_short_reference_hash_reports_length() {
    let mut m = plain_token();
    m.reference = Some("https://r".to_string());
    m.reference_hash = Some(vec![2u8; 30]);
    assert_eq!(
        m.assert_valid(),
        Err(ValidationError::InvalidHashLength {
            field: HashField::ReferenceHash,
            expected: 32,
            actual: 30,
        })
    );
}

#[test]
fn token_with_both_pairs_complete_validates() {
    let mut m = plain_token();
    m.media = Some("https://m".to_string());
    m.media_hash = Some(vec![1u8; 32]);
    m.reference = Some("https://r".to_string());
    m.reference_hash = Some(vec![2u8; 32]);
    assert_eq!(m.assert_valid(), Ok(()));
}

#[test]
fn token_with_no_pairs_validates() {
    assert_eq!(plain_token().assert_valid(), Ok(()));
}

struct FixedProvider {
    metadata: NFTContractMetadata,
}

impl NonFungibleTokenMetadataProvider for FixedProvider {
    fn nft_metadata(&self) -> NFTContractMetadata {
        self.metadata.clone()
    }
}

#[test]
fn provider_returns_the_contract_metadata() {
    let p = FixedProvider { metadata: plain_contract() };
    assert_eq!(p.nft_metadata(), plain_contract());
}
