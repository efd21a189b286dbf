use nft_metadata::contract::NFTContractMetadata;
use nft_metadata::errors::DecodeError;
use nft_metadata::previous::OldTokenMetadata;
use nft_metadata::token::TokenMetadata;

fn full_contract() -> NFTContractMetadata {
    NFTContractMetadata {
        spec: "nft-1.0.0".to_string(),
        name: "Mosa\u{ef}cs \u{2713}".to_string(),
        symbol: "MOSAIC".to_string(),
        icon: Some("data:image/svg+xml;base64,PHN2Zz4=".to_string()),
        base_uri: Some("https://gateway".to_string()),
        reference: Some("https://x/meta.json".to_string()),
        reference_hash: Some((0u8..32).collect()),
    }
}

fn full_token() -> TokenMetadata {
    TokenMetadata {
        title: Some("Parcel #5055".to_string()),
        description: Some("free-form \u{00e9}\u{20ac}\u{1f600}".to_string()),
        media: Some("https://m".to_string()),
        media_hash: Some(vec![3u8; 32]),
        copies: Some(10_000),
        issued_at: Some("2021-05-01T00:00:00Z".to_string()),
        price: Some("1000000000000000000000000".to_string()),
        culture: Some("culture".to_string()),
        country: Some("country".to_string()),
        creator: Some("carol".to_string()),
        on_sale: Some(true),
        expires_at: Some("2030-01-01T00:00:00Z".to_string()),
        starts_at: Some("2021-05-01T00:00:00Z".to_string()),
        updated_at: Some("2021-06-01T00:00:00Z".to_string()),
        extra: Some("{\"k\":\"v\"}".to_string()),
        reference: Some("https://r".to_string()),
        reference_hash: Some(vec![4u8; 32]),
    }
}

fn full_old_token() -> OldTokenMetadata {
    OldTokenMetadata {
        title: Some("Parcel #5055".to_string()),
        description: None,
        media: Some("https://m".to_string()),
        media_hash: Some(vec![3u8; 32]),
        copies: Some(1),
        issued_at: Some("2020-01-01T00:00:00Z".to_string()),
        price: Some("42".to_string()),
        culture: None,
        country: Some("country".to_string()),
        on_sale: Some(false),
        on_auction: Some(true),
        adressbidder: Some("alice".to_string()),
        highestbidder: Some("bob".to_string()),
        lowestbidder: None,
        expires_at: None,
        starts_at: None,
        updated_at: Some("2020-02-02T00:00:00Z".to_string()),
        extra: None,
        reference: Some("https://r".to_string()),
        reference_hash: Some(vec![4u8; 32]),
    }
}

#[test]
fn contract_binary_round_trip() {
    let m = full_contract();
    let bytes = m.to_bytes();
    assert_eq!(NFTContractMetadata::from_bytes(&bytes), Ok(m));
}

#[test]
fn token_binary_round_trip() {
    let m = full_token();
    let bytes = m.to_bytes();
    assert_eq!(TokenMetadata::from_bytes(&bytes), Ok(m));
}

#[test]
fn old_token_binary_round_trip() {
    let m = full_old_token();
    let bytes = m.to_bytes();
    assert_eq!(OldTokenMetadata::from_bytes(&bytes), Ok(m));
}

#[test]
fn contract_text_round_trip() {
    let m = full_contract();
    let text = m.to_text();
    assert_eq!(NFTContractMetadata::from_text(&text), Ok(m));
}

#[test]
fn token_text_round_trip() {
    let m = full_token();
    let text = m.to_text();
    assert_eq!(TokenMetadata::from_text(&text), Ok(m));
}

#[test]
fn old_token_text_round_trip() {
    let m = full_old_token();
    let text = m.to_text();
    assert_eq!(OldTokenMetadata::from_text(&text), Ok(m));
}

#[test]
fn empty_contract_has_exact_bytes() {
    let m = NFTContractMetadata {
        spec: String::new(),
        name: String::new(),
        symbol: String::new(),
        icon: None,
        base_uri: None,
        reference: None,
        reference_hash: None,
    };
    // Three empty strings of eight zero length bytes each, then four absent
    // optionals of one zero tag byte each.
    assert_eq!(m.to_bytes(), vec![0u8; 28]);
}

#[test]
fn all_absent_token_has_exact_bytes_and_text() {
    let m = TokenMetadata {
        title: None,
        description: None,
        media: None,
        media_hash: None,
        copies: None,
        issued_at: None,
        price: None,
        culture: None,
        country: None,
        creator: None,
        on_sale: None,
        expires_at: None,
        starts_at: None,
        updated_at: None,
        extra: None,
        reference: None,
        reference_hash: None,
    };
    // Seventeen absent optionals, one zero tag byte each.
    assert_eq!(m.to_bytes(), vec![0u8; 17]);
    assert_eq!(m.to_text(), "0".repeat(34));
}

#[test]
fn token_with_one_field_has_exact_bytes() {
    let mut m = TokenMetadata {
        title: Some("A".to_string()),
        description: None,
        media: None,
        media_hash: None,
        copies: None,
        issued_at: None,
        price: None,
        culture: None,
        country: None,
        creator: None,
        on_sale: None,
        expires_at: None,
        starts_at: None,
        updated_at: None,
        extra: None,
        reference: None,
        reference_hash: None,
    };
    let mut expected = vec![1u8, 1, 0, 0, 0, 0, 0, 0, 0, 65];
    expected.extend(vec![0u8; 16]);
    assert_eq!(m.to_bytes(), expected);
    m.copies = Some(258);
    let mut expected2 = vec![1u8, 1, 0, 0, 0, 0, 0, 0, 0, 65, 0, 0, 0, 1, 2, 1, 0, 0, 0, 0, 0, 0];
    expected2.extend(vec![0u8; 12]);
    assert_eq!(m.to_bytes(), expected2);
}

#[test]
fn decode_rejects_empty_and_truncated_bytes() {
    assert_eq!(
        TokenMetadata::from_bytes(&[]),
        Err(DecodeError::LayoutDecodeFailure)
    );
    assert_eq!(
        TokenMetadata::from_bytes(&[1u8, 1, 0, 0]),
        Err(DecodeError::LayoutDecodeFailure)
    );
    let mut bytes = full_token().to_bytes();
    bytes.pop();
    assert_eq!(
        TokenMetadata::from_bytes(&bytes),
        Err(DecodeError::LayoutDecodeFailure)
    );
}

#[test]
fn decode_rejects_trailing_bytes() {
    let mut bytes = full_token().to_bytes();
    bytes.push(0);
    assert_eq!(
        TokenMetadata::from_bytes(&bytes),
        Err(DecodeError::LayoutDecodeFailure)
    );
}

#[test]
fn decode_rejects_bad_presence_tag() {
    assert_eq!(
        TokenMetadata::from_bytes(&[2u8; 17]),
        Err(DecodeError::LayoutDecodeFailure)
    );
}

#[test]
fn decode_rejects_invalid_utf8_in_string_field() {
    let mut bytes = vec![1u8, 1, 0, 0, 0, 0, 0, 0, 0, 0xff];
    bytes.extend(vec![0u8; 16]);
    assert_eq!(
        TokenMetadata::from_bytes(&bytes),
        Err(DecodeError::LayoutDecodeFailure)
    );
}

#[test]
fn text_decode_rejects_bad_text() {
    assert_eq!(
        TokenMetadata::from_text("0"),
        Err(DecodeError::LayoutDecodeFailure)
    );
    assert_eq!(
        TokenMetadata::from_text("zz"),
        Err(DecodeError::LayoutDecodeFailure)
    );
    assert_eq!(
        TokenMetadata::from_text("0\u{2713}"),
        Err(DecodeError::LayoutDecodeFailure)
    );
    assert_eq!(
        TokenMetadata::from_text("0A"),
        Err(DecodeError::LayoutDecodeFailure)
    );
}
