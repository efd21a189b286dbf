use nft_metadata::errors::DecodeError;
use nft_metadata::previous::OldTokenMetadata;
use nft_metadata::token::TokenMetadata;

fn previous_record() -> OldTokenMetadata {
    OldTokenMetadata {
        title: Some("Parcel #5055".to_string()),
        description: Some("a parcel".to_string()),
        media: Some("https://m".to_string()),
        media_hash: Some(vec![3u8; 32]),
        copies: Some(5),
        issued_at: Some("2020-01-01T00:00:00Z".to_string()),
        price: Some("42".to_string()),
        culture: Some("culture".to_string()),
        country: Some("country".to_string()),
        on_sale: Some(false),
        on_auction: Some(true),
        adressbidder: Some("alice".to_string()),
        highestbidder: Some("bob".to_string()),
        lowestbidder: Some("carol".to_string()),
        expires_at: Some("2030-01-01T00:00:00Z".to_string()),
        starts_at: Some("2020-01-01T00:00:00Z".to_string()),
        updated_at: Some("2020-02-02T00:00:00Z".to_string()),
        extra: Some("extra".to_string()),
        reference: Some("https://r".to_string()),
        reference_hash: Some(vec![4u8; 32]),
    }
}

#[test]
fn migrate_rewrites_previous_layout_bytes() {
    let old = previous_record();
    let state = old.to_bytes();
    let new = TokenMetadata::migrate(&state).unwrap();
    assert_eq!(new.creator, Some("a".repeat(64)));
    assert_eq!(new.creator.as_ref().unwrap().len(), 64);
    assert_eq!(new.title, old.title);
    assert_eq!(new.description, old.description);
    assert_eq!(new.media, old.media);
    assert_eq!(new.media_hash, old.media_hash);
    assert_eq!(new.copies, old.copies);
    assert_eq!(new.issued_at, old.issued_at);
    assert_eq!(new.price, old.price);
    assert_eq!(new.culture, old.culture);
    assert_eq!(new.country, old.country);
    assert_eq!(new.on_sale, old.on_sale);
    assert_eq!(new.expires_at, old.expires_at);
    assert_eq!(new.starts_at, old.starts_at);
    assert_eq!(new.updated_at, old.updated_at);
    assert_eq!(new.extra, old.extra);
    assert_eq!(new.reference, old.reference);
    assert_eq!(new.reference_hash, old.reference_hash);
}

#[test]
fn migrate_synthesizes_creator_when_bidders_absent() {
    let mut old = previous_record();
    old.on_auction = None;
    old.adressbidder = None;
    old.highestbidder = None;
    old.lowestbidder = None;
    let new = TokenMetadata::migrate(&old.to_bytes()).unwrap();
    assert_eq!(new.creator, Some("a".repeat(64)));
    assert_eq!(new.title, old.title);
}

#[test]
fn migrate_twice_fails_without_state_change() {
    let old = previous_record();
    let state = old.to_bytes();
    let new = TokenMetadata::migrate(&state).unwrap();
    let new_state = new.to_bytes();
    assert_eq!(
        TokenMetadata::migrate(&new_state),
        Err(DecodeError::LayoutDecodeFailure)
    );
    // The bytes handed to the failed call are untouched.
    assert_eq!(new_state, new.to_bytes());
}

#[test]
fn migrate_rejects_corrupted_state() {
    assert_eq!(
        TokenMetadata::migrate(&[9u8, 9, 9]),
        Err(DecodeError::LayoutDecodeFailure)
    );
}
