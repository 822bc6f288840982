use sigil::errors::ErrorCode;
use sigil::key::Key;
use sigil::state::{Asset, TokenAsset};

fn key(n: u8) -> Key {
    Key::new([n; 32])
}

fn asset(authority: Key, owner: Key) -> Asset {
    let mut asset = Asset {
        authority: key(0),
        owner: key(0),
        attestor: Some(key(99)),
        metadata_uri: String::new(),
        bump: 0,
    };
    assert_eq!(asset.create(authority, owner, 250, "ipfs://asset".to_string()), Ok(()));
    asset
}

fn token(amount: u64) -> TokenAsset {
    let mut token = TokenAsset { issuer: key(0), owner: key(0), mint: key(0), amount: 0, bump: 0 };
    assert_eq!(token.create(key(1), key(2), key(3), amount, 7), Ok(()));
    token
}

#[test]
fn asset_create_fills_every_field_and_clears_the_attestor() {
    let asset = asset(key(1), key(2));
    assert_eq!(asset.authority, key(1));
    assert_eq!(asset.owner, key(2));
    assert_eq!(asset.attestor, None);
    assert_eq!(asset.metadata_uri, "ipfs://asset");
    assert_eq!(asset.bump, 250);
}

#[test]
fn transfer_by_the_holder_changes_only_the_holder() {
    let mut asset = asset(key(1), key(2));
    assert_eq!(asset.attest(key(8)), Ok(()));
    assert_eq!(asset.transfer(key(2), key(2), key(3)), Ok(()));
    assert_eq!(asset.owner, key(3));
    assert_eq!(asset.authority, key(1));
    assert_eq!(asset.attestor, Some(key(8)));
    assert_eq!(asset.metadata_uri, "ipfs://asset");
    assert_eq!(asset.bump, 250);
}

#[test]
fn transfer_by_another_key_is_unauthorized() {
    let mut asset = asset(key(1), key(2));
    assert_eq!(asset.transfer(key(1), key(2), key(3)), Err(ErrorCode::Unauthorized));
    assert_eq!(asset.transfer(key(3), key(2), key(3)), Err(ErrorCode::Unauthorized));
    assert_eq!(asset.owner, key(2));
}

#[test]
fn transfer_goes_by_the_holder_on_record() {
    let mut asset = asset(key(1), key(2));
    assert_eq!(asset.transfer(key(3), key(3), key(3)), Err(ErrorCode::Unauthorized));
    assert_eq!(asset.owner, key(2));
}

#[test]
fn former_holder_cannot_transfer_again() {
    let mut asset = asset(key(1), key(2));
    assert_eq!(asset.transfer(key(2), key(2), key(3)), Ok(()));
    assert_eq!(asset.transfer(key(2), key(3), key(2)), Err(ErrorCode::Unauthorized));
    assert_eq!(asset.transfer(key(3), key(3), key(2)), Ok(()));
    assert_eq!(asset.owner, key(2));
}

#[test]
fn anyone_may_attest_and_the_last_attestor_stays() {
    let mut asset = asset(key(1), key(2));
    assert_eq!(asset.attest(key(7)), Ok(()));
    assert_eq!(asset.attestor, Some(key(7)));
    assert_eq!(asset.attest(key(8)), Ok(()));
    assert_eq!(asset.attestor, Some(key(8)));
    assert_eq!(asset.owner, key(2));
    assert_eq!(asset.authority, key(1));
}

#[test]
fn burning_an_asset_leaves_it_to_nobody() {
    let mut asset = asset(key(1), key(2));
    assert_eq!(asset.burn(5), Ok(()));
    assert_eq!(asset.owner, Key::new([0u8; 32]));
    assert_eq!(asset.owner.to_bytes(), [0u8; 32]);
    assert_eq!(asset.authority, key(1));
    assert_eq!(asset.metadata_uri, "ipfs://asset");
}

#[test]
fn token_create_fills_every_field() {
    let token = token(40);
    assert_eq!(token.issuer, key(1));
    assert_eq!(token.owner, key(2));
    assert_eq!(token.mint, key(3));
    assert_eq!(token.amount, 40);
    assert_eq!(token.bump, 7);
}

#[test]
fn burn_of_more_than_there_is_changes_nothing() {
    let mut token = token(40);
    assert_eq!(token.burn(41), Err(ErrorCode::AmountNotEnough));
    assert_eq!(token.amount, 40);
    assert_eq!(token.burn(u64::MAX), Err(ErrorCode::AmountNotEnough));
    assert_eq!(token.amount, 40);
    assert_eq!(token.owner, key(2));
}

#[test]
fn burn_takes_exactly_the_amount() {
    let mut token = token(40);
    assert_eq!(token.burn(15), Ok(()));
    assert_eq!(token.amount, 25);
    assert_eq!(token.burn(0), Ok(()));
    assert_eq!(token.amount, 25);
    assert_eq!(token.burn(25), Ok(()));
    assert_eq!(token.amount, 0);
    assert_eq!(token.burn(1), Err(ErrorCode::AmountNotEnough));
    assert_eq!(token.issuer, key(1));
    assert_eq!(token.owner, key(2));
    assert_eq!(token.mint, key(3));
}

#[test]
fn mint_adds_exactly_the_amount() {
    let mut token = token(40);
    assert_eq!(token.mint(2), Ok(()));
    assert_eq!(token.amount, 42);
    assert_eq!(token.mint(u64::MAX - 42), Ok(()));
    assert_eq!(token.amount, u64::MAX);
    assert_eq!(token.mint(0), Ok(()));
    assert_eq!(token.amount, u64::MAX);
}
