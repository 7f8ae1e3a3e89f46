use anchor_lang::solana_program::hash::hash;
use anchor_lang::solana_program::pubkey::Pubkey;
use registry::derivation::{address_for_bump, endpoint_digest, MAX_BUMP};
use registry::listing::{check_field_lengths, utf8_len};
use registry::{
    create_listing, set_active, update_listing, ApiListing, CreateListing, ListingStore,
    PublicKey, RegistryError, SetActive, UpdateListing,
};

fn key(b: u8) -> PublicKey {
    PublicKey::new([b; 32])
}

fn program() -> PublicKey {
    let mut bytes = [0u8; 32];
    for (i, b) in bytes.iter_mut().enumerate() {
        *b = (i as u8).wrapping_mul(7).wrapping_add(3);
    }
    PublicKey::new(bytes)
}

const ENDPOINT: &str = "https://api.example.com/v1";

fn create(store: &mut ListingStore, provider: PublicKey, endpoint: &str, description: &str) -> Result<(), RegistryError> {
    create_listing(
        &CreateListing { provider },
        store,
        endpoint.to_string(),
        description.to_string(),
        1500,
        key(9),
        3,
        "https://example.com/logo.png".to_string(),
    )
}

fn address_of(provider: PublicKey, endpoint: &str) -> (PublicKey, u8) {
    registry::derivation::derive(&program(), &provider, endpoint).unwrap()
}

struct Snapshot {
    provider: PublicKey,
    endpoint_url: String,
    description: String,
    price_usd_cents: u32,
    token_mint: PublicKey,
    category: u8,
    logo_url: String,
    active: bool,
    bump: u8,
}

fn snapshot(l: &ApiListing) -> Snapshot {
    Snapshot {
        provider: l.provider,
        endpoint_url: l.endpoint_url.clone(),
        description: l.description.clone(),
        price_usd_cents: l.price_usd_cents,
        token_mint: l.token_mint,
        category: l.category,
        logo_url: l.logo_url.clone(),
        active: l.active,
        bump: l.bump,
    }
}

fn same_except_active(a: &Snapshot, b: &Snapshot) -> bool {
    a.provider == b.provider
        && a.endpoint_url == b.endpoint_url
        && a.description == b.description
        && a.price_usd_cents == b.price_usd_cents
        && a.token_mint == b.token_mint
        && a.category == b.category
        && a.logo_url == b.logo_url
        && a.bump == b.bump
}

#[test]
fn derive_is_deterministic() {
    let first = registry::derivation::derive(&program(), &key(1), ENDPOINT).unwrap();
    let second = registry::derivation::derive(&program(), &key(1), ENDPOINT).unwrap();
    assert_eq!(first.0, second.0);
    assert_eq!(first.1, second.1);
}

#[test]
fn derive_distinct_inputs_give_distinct_addresses() {
    let endpoints = ["https://a.example", "https://b.example", "https://a.example/", "", "x"];
    let mut seen: Vec<PublicKey> = Vec::new();
    for owner in 1u8..6 {
        for e in endpoints.iter() {
            let (a, _) = address_of(key(owner), e);
            assert!(!seen.contains(&a));
            seen.push(a);
        }
    }
    assert_eq!(seen.len(), 25);
}

#[test]
fn derive_agrees_with_runtime_search() {
    let prog = Pubkey::new_from_array(program().to_bytes());
    for owner in 1u8..4 {
        let digest = hash(ENDPOINT.as_bytes()).to_bytes();
        let (expected, bump) =
            Pubkey::find_program_address(&[&[owner; 32], &digest], &prog);
        let (a, b) = address_of(key(owner), ENDPOINT);
        assert_eq!(a.to_bytes(), expected.to_bytes());
        assert_eq!(b, bump);
        assert!(b <= MAX_BUMP && b >= 1);
    }
}

#[test]
fn endpoint_digest_is_the_hash_of_the_bytes() {
    let d = endpoint_digest(ENDPOINT);
    assert_eq!(d, hash(ENDPOINT.as_bytes()).to_bytes());
    assert_ne!(&d[..ENDPOINT.len().min(32)], &ENDPOINT.as_bytes()[..ENDPOINT.len().min(32)]);
}

#[test]
fn address_for_bump_reproduces_the_derived_address() {
    let (a, b) = address_of(key(4), ENDPOINT);
    let again = address_for_bump(&program(), &key(4), ENDPOINT, b).unwrap();
    assert_eq!(again, a);
    assert_ne!(again, key(4));
}

#[test]
fn field_lengths_are_counted_in_bytes() {
    assert_eq!(utf8_len("abc"), 3);
    assert_eq!(utf8_len("é"), 2);
    let e128 = "é".repeat(64);
    let e130 = "é".repeat(65);
    assert!(check_field_lengths(&e128, "", ""));
    assert!(!check_field_lengths(&e130, "", ""));
    assert!(check_field_lengths("", &"d".repeat(256), &"l".repeat(128)));
    assert!(!check_field_lengths("", "", &"l".repeat(129)));
}

#[test]
fn record_size_is_fixed() {
    assert_eq!(ApiListing::MAX_SIZE, 595);
    assert_eq!(ApiListing::SPACE, 603);
}

#[test]
fn create_sets_all_fields() {
    let mut store = ListingStore::new(program());
    assert_eq!(store.program_id(), program());
    assert_eq!(create(&mut store, key(1), ENDPOINT, "weather data"), Ok(()));
    let (a, b) = address_of(key(1), ENDPOINT);
    assert!(store.contains(&a));
    let l = store.get(&a).unwrap();
    assert_eq!(l.provider, key(1));
    assert_eq!(l.endpoint_url, ENDPOINT);
    assert_eq!(l.description, "weather data");
    assert_eq!(l.price_usd_cents, 1500);
    assert_eq!(l.token_mint, key(9));
    assert_eq!(l.category, 3);
    assert_eq!(l.logo_url, "https://example.com/logo.png");
    assert!(l.active);
    assert_eq!(l.bump, b);
}

#[test]
fn create_update_deactivate_update() {
    let mut store = ListingStore::new(program());
    assert_eq!(create(&mut store, key(1), ENDPOINT, "first"), Ok(()));
    let (a, b) = address_of(key(1), ENDPOINT);
    let ctx = UpdateListing { provider: key(1), listing: a };
    let r = update_listing(&ctx, &mut store, ENDPOINT.to_string(), "second".to_string(), 10, key(7), 4, "logo2".to_string());
    assert_eq!(r, Ok(()));
    assert_eq!(set_active(&SetActive { provider: key(1), listing: a }, &mut store, false), Ok(()));
    let r = update_listing(&ctx, &mut store, ENDPOINT.to_string(), "third".to_string(), 20, key(8), 5, "logo3".to_string());
    assert_eq!(r, Ok(()));
    let l = store.get(&a).unwrap();
    assert!(!l.active);
    assert_eq!(l.description, "third");
    assert_eq!(l.price_usd_cents, 20);
    assert_eq!(l.token_mint, key(8));
    assert_eq!(l.category, 5);
    assert_eq!(l.logo_url, "logo3");
    assert_eq!(l.provider, key(1));
    assert_eq!(l.endpoint_url, ENDPOINT);
    assert_eq!(l.bump, b);
}

#[test]
fn create_with_long_description_fails() {
    let mut store = ListingStore::new(program());
    let long = "d".repeat(257);
    assert_eq!(create(&mut store, key(1), ENDPOINT, &long), Err(RegistryError::FieldTooLong));
    let (a, _) = address_of(key(1), ENDPOINT);
    assert!(store.get(&a).is_none());
    assert_eq!(create(&mut store, key(1), ENDPOINT, &"d".repeat(256)), Ok(()));
}

#[test]
fn create_with_long_endpoint_or_logo_fails() {
    let mut store = ListingStore::new(program());
    let long_endpoint = "e".repeat(129);
    assert_eq!(create(&mut store, key(1), &long_endpoint, "x"), Err(RegistryError::FieldTooLong));
    let r = create_listing(
        &CreateListing { provider: key(1) },
        &mut store,
        ENDPOINT.to_string(),
        "x".to_string(),
        1,
        key(9),
        0,
        "l".repeat(129),
    );
    assert_eq!(r, Err(RegistryError::FieldTooLong));
    assert_eq!(create(&mut store, key(1), &"e".repeat(128), "x"), Ok(()));
}

#[test]
fn update_by_other_identity_is_unauthorized() {
    let mut store = ListingStore::new(program());
    assert_eq!(create(&mut store, key(1), ENDPOINT, "mine"), Ok(()));
    let (a, _) = address_of(key(1), ENDPOINT);
    let before = snapshot(store.get(&a).unwrap());
    let ctx = UpdateListing { provider: key(2), listing: a };
    let r = update_listing(&ctx, &mut store, ENDPOINT.to_string(), "stolen".to_string(), 1, key(2), 0, "x".to_string());
    assert_eq!(r, Err(RegistryError::Unauthorized));
    let after = snapshot(store.get(&a).unwrap());
    assert!(same_except_active(&before, &after));
    assert_eq!(before.active, after.active);
}

#[test]
fn set_active_by_other_identity_is_unauthorized() {
    let mut store = ListingStore::new(program());
    assert_eq!(create(&mut store, key(1), ENDPOINT, "mine"), Ok(()));
    let (a, _) = address_of(key(1), ENDPOINT);
    let r = set_active(&SetActive { provider: key(3), listing: a }, &mut store, false);
    assert_eq!(r, Err(RegistryError::Unauthorized));
    assert!(store.get(&a).unwrap().active);
}

#[test]
fn create_twice_already_exists() {
    let mut store = ListingStore::new(program());
    assert_eq!(create(&mut store, key(1), ENDPOINT, "first"), Ok(()));
    assert_eq!(create(&mut store, key(1), ENDPOINT, "second"), Err(RegistryError::AlreadyExists));
    let (a, _) = address_of(key(1), ENDPOINT);
    assert_eq!(store.get(&a).unwrap().description, "first");
    assert_eq!(create(&mut store, key(2), ENDPOINT, "other owner"), Ok(()));
}

#[test]
fn toggle_active_keeps_other_fields() {
    let mut store = ListingStore::new(program());
    assert_eq!(create(&mut store, key(1), ENDPOINT, "toggle"), Ok(()));
    let (a, _) = address_of(key(1), ENDPOINT);
    let ctx = SetActive { provider: key(1), listing: a };
    let start = snapshot(store.get(&a).unwrap());
    assert!(start.active);
    assert_eq!(set_active(&ctx, &mut store, false), Ok(()));
    let off = snapshot(store.get(&a).unwrap());
    assert!(!off.active);
    assert!(same_except_active(&start, &off));
    assert_eq!(set_active(&ctx, &mut store, true), Ok(()));
    let on = snapshot(store.get(&a).unwrap());
    assert!(on.active);
    assert!(same_except_active(&start, &on));
}

#[test]
fn missing_record_is_not_found() {
    let mut store = ListingStore::new(program());
    let (a, _) = address_of(key(1), ENDPOINT);
    let r = update_listing(&UpdateListing { provider: key(1), listing: a }, &mut store, ENDPOINT.to_string(), "d".to_string(), 1, key(9), 0, "l".to_string());
    assert_eq!(r, Err(RegistryError::RecordNotFound));
    let r = set_active(&SetActive { provider: key(1), listing: a }, &mut store, false);
    assert_eq!(r, Err(RegistryError::RecordNotFound));
}

#[test]
fn update_with_other_endpoint_is_address_mismatch() {
    let mut store = ListingStore::new(program());
    assert_eq!(create(&mut store, key(1), ENDPOINT, "d"), Ok(()));
    let (a, _) = address_of(key(1), ENDPOINT);
    let ctx = UpdateListing { provider: key(1), listing: a };
    let r = update_listing(&ctx, &mut store, "https://elsewhere.example".to_string(), "new".to_string(), 1, key(9), 0, "l".to_string());
    assert_eq!(r, Err(RegistryError::AddressMismatch));
    assert_eq!(store.get(&a).unwrap().description, "d");
}

#[test]
fn update_with_long_field_fails_first() {
    let mut store = ListingStore::new(program());
    assert_eq!(create(&mut store, key(1), ENDPOINT, "d"), Ok(()));
    let (a, _) = address_of(key(1), ENDPOINT);
    let ctx = UpdateListing { provider: key(2), listing: a };
    let r = update_listing(&ctx, &mut store, ENDPOINT.to_string(), "d".repeat(257), 1, key(9), 0, "l".to_string());
    assert_eq!(r, Err(RegistryError::FieldTooLong));
}

#[test]
fn load_admits_only_records_at_their_address() {
    let (a, b) = address_of(key(1), ENDPOINT);
    let record = |bump: u8, description: &str| ApiListing {
        provider: key(1),
        endpoint_url: ENDPOINT.to_string(),
        description: description.to_string(),
        price_usd_cents: 5,
        token_mint: key(9),
        category: 1,
        logo_url: String::new(),
        active: false,
        bump,
    };
    let mut store = ListingStore::new(program());
    assert_eq!(store.load(key(5), record(b, "x")), Err(RegistryError::AddressMismatch));
    assert_eq!(store.load(a, record(b, &"x".repeat(300))), Err(RegistryError::FieldTooLong));
    assert_eq!(store.load(a, record(b, "x")), Ok(()));
    assert!(!store.get(&a).unwrap().active);
    assert_eq!(store.load(a, record(b, "y")), Err(RegistryError::AlreadyExists));
    let r = set_active(&SetActive { provider: key(1), listing: a }, &mut store, true);
    assert_eq!(r, Ok(()));
}

#[test]
fn error_messages_are_distinct() {
    let all = [
        RegistryError::FieldTooLong,
        RegistryError::AlreadyExists,
        RegistryError::RecordNotFound,
        RegistryError::AddressMismatch,
        RegistryError::Unauthorized,
        RegistryError::DerivationExhausted,
    ];
    for (i, x) in all.iter().enumerate() {
        for (j, y) in all.iter().enumerate() {
            assert_eq!(i == j, x.message() == y.message());
        }
    }
    assert_eq!(RegistryError::FieldTooLong.message(), "Provided string exceeds maximum length");
}
