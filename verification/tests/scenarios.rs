use shield_vault::{
    add_allowed_contract, execute_action, initialize, set_mode, Amount, Approval, Error, Identity,
    SafetyMode,
};

fn admin() -> Identity {
    Identity::account([0xa1; 32])
}

fn user() -> Identity {
    Identity::account([0x17; 32])
}

fn outsider() -> Identity {
    Identity::account([0xb2; 32])
}

fn target() -> Identity {
    Identity::contract([0x70; 32])
}

fn unlisted() -> Identity {
    Identity::contract([0x71; 32])
}

#[test]
fn initialize_sets_admin_defaults_and_empty_allowlist() {
    let vault = initialize(admin());
    assert_eq!(vault.get_safe_limit(), Amount::from_u64(1000));
    assert_eq!(vault.get_balanced_limit(), Amount::from_u64(10000));
    assert_eq!(vault.allowlist().len(), 0);
    assert!(vault.allowlist().members().is_empty());
    assert_eq!(vault.get_admin(), Ok(admin()));
    assert!(vault.is_admin(&admin()));
    assert!(!vault.is_admin(&user()));
}

#[test]
fn safe_mode_denies_unlisted_target() {
    let vault = initialize(admin());
    assert_eq!(vault.get_mode(&user()), SafetyMode::Safe);
    assert_eq!(
        execute_action(&vault, &user(), &target(), &Amount::from_u64(500)),
        Err(Error::ContractNotAllowed)
    );
}

#[test]
fn safe_mode_allows_listed_target_within_limit() {
    let mut vault = initialize(admin());
    assert_eq!(add_allowed_contract(&mut vault, &admin(), target()), Ok(()));
    assert_eq!(
        execute_action(&vault, &user(), &target(), &Amount::from_u64(500)),
        Ok(Approval::Clear)
    );
}

#[test]
fn safe_mode_denies_amount_over_limit() {
    let mut vault = initialize(admin());
    assert_eq!(add_allowed_contract(&mut vault, &admin(), target()), Ok(()));
    assert_eq!(
        execute_action(&vault, &user(), &target(), &Amount::from_u64(1500)),
        Err(Error::AmountExceedsLimit)
    );
    assert_eq!(vault.get_mode(&user()), SafetyMode::Safe);
}

#[test]
fn balanced_mode_allows_unlisted_target_within_limit() {
    let mut vault = initialize(admin());
    assert_eq!(set_mode(&mut vault, &user(), 1), Ok(()));
    assert_eq!(vault.get_mode(&user()), SafetyMode::Balanced);
    let outcome = execute_action(&vault, &user(), &unlisted(), &Amount::from_u64(5000));
    assert!(outcome.is_ok());
    assert_eq!(outcome, Ok(Approval::UnlistedTarget));
}

#[test]
fn invalid_mode_is_denied_and_earlier_mode_kept() {
    let mut vault = initialize(admin());
    assert_eq!(set_mode(&mut vault, &user(), 1), Ok(()));
    assert_eq!(set_mode(&mut vault, &user(), 3), Err(Error::InvalidMode));
    assert_eq!(vault.get_mode(&user()), SafetyMode::Balanced);
    assert_eq!(vault.get_mode(&user()).to_u8(), 1);
}

#[test]
fn non_admin_cannot_add_allowed_contract() {
    let mut vault = initialize(admin());
    let other = Identity::contract([0x5a; 32]);
    assert_eq!(
        add_allowed_contract(&mut vault, &outsider(), other),
        Err(Error::Unauthorized)
    );
    assert!(!vault.is_allowed(&other));
    assert_eq!(vault.allowlist().len(), 0);
}

#[test]
fn whole_story_in_one_vault() {
    let mut vault = initialize(admin());
    assert_eq!(
        execute_action(&vault, &user(), &target(), &Amount::from_u64(500)),
        Err(Error::ContractNotAllowed)
    );
    assert_eq!(add_allowed_contract(&mut vault, &admin(), target()), Ok(()));
    assert_eq!(
        execute_action(&vault, &user(), &target(), &Amount::from_u64(500)),
        Ok(Approval::Clear)
    );
    assert_eq!(
        execute_action(&vault, &user(), &target(), &Amount::from_u64(1500)),
        Err(Error::AmountExceedsLimit)
    );
    assert_eq!(set_mode(&mut vault, &user(), 1), Ok(()));
    assert!(execute_action(&vault, &user(), &unlisted(), &Amount::from_u64(5000)).is_ok());
    assert_eq!(set_mode(&mut vault, &user(), 3), Err(Error::InvalidMode));
    assert_eq!(vault.get_mode(&user()), SafetyMode::Balanced);
    let other = Identity::contract([0x5a; 32]);
    assert_eq!(
        add_allowed_contract(&mut vault, &outsider(), other),
        Err(Error::Unauthorized)
    );
    assert!(!vault.is_allowed(&other));
    assert!(vault.is_allowed(&target()));
    assert_eq!(vault.get_admin(), Ok(admin()));
}
