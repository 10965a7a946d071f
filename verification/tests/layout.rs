use casper_types::account::AccountHash;
use casper_types::Key;
use shield_vault::layout::{
    ADMIN, ALLOWED_CONTRACTS, MAX_TX_AMOUNT_BALANCED, MAX_TX_AMOUNT_SAFE, USER_MODE,
};
use shield_vault::{user_mode_key, Identity};

#[test]
fn slot_names() {
    assert_eq!(ADMIN, "admin");
    assert_eq!(MAX_TX_AMOUNT_SAFE, "max_tx_amount_safe");
    assert_eq!(MAX_TX_AMOUNT_BALANCED, "max_tx_amount_balanced");
    assert_eq!(ALLOWED_CONTRACTS, "allowed_contracts");
    assert_eq!(USER_MODE, "user_mode");
}

#[test]
fn user_mode_key_of_an_account() {
    let mut hash = [0u8; 32];
    hash[0] = 0x01;
    hash[1] = 0xab;
    hash[2] = 0x0f;
    hash[3] = 0xf0;
    hash[31] = 0x9c;
    assert_eq!(
        user_mode_key(&Identity::account(hash)),
        "user_mode:Key::Account(01ab0ff00000000000000000000000000000000000000000000000000000009c)"
    );
}

#[test]
fn user_mode_key_of_a_contract() {
    assert_eq!(
        user_mode_key(&Identity::contract([0xfe; 32])),
        "user_mode:Key::Hash(fefefefefefefefefefefefefefefefefefefefefefefefefefefefefefefefe)"
    );
}

#[test]
fn user_mode_key_is_the_tag_and_the_written_key() {
    let mut hash = [0u8; 32];
    let mut i: usize = 0;
    while i < 32 {
        hash[i] = (i * 8 + 3) as u8;
        i += 1;
    }
    assert_eq!(
        user_mode_key(&Identity::account(hash)),
        format!("{}:{}", USER_MODE, Key::Account(AccountHash::new(hash)))
    );
    assert_eq!(
        user_mode_key(&Identity::contract(hash)),
        format!("{}:{}", USER_MODE, Key::Hash(hash))
    );
}

#[test]
fn user_mode_keys_tell_identities_apart() {
    let a = user_mode_key(&Identity::account([7; 32]));
    let b = user_mode_key(&Identity::contract([7; 32]));
    let c = user_mode_key(&Identity::account([8; 32]));
    assert_ne!(a, b);
    assert_ne!(a, c);
    assert_ne!(b, c);
    assert_eq!(a, user_mode_key(&Identity::account([7; 32])));
}
