use collateral_vault::address::Address;
use collateral_vault::ds::{VaultAuthority, MAX_AUTHORIZED_PROGRAMS};
use collateral_vault::{
    authorize_program, initialize_authority, revoke_program, ErrorCode, InitializeAuthority,
    ManageAuthority,
};

fn program(tag: u8) -> Address {
    Address::new_from_array([tag; 32])
}

fn admin() -> Address {
    program(200)
}

#[test]
fn initialize_authority_creates_empty_registry() {
    let mut ctx = InitializeAuthority { vault_authority: None, payer: admin() };
    assert_eq!(initialize_authority(&mut ctx, 253), Ok(()));
    let registry = ctx.vault_authority.clone().unwrap();
    assert!(registry.authorized_programs.is_empty());
    assert_eq!(registry.bump, 253);
    assert_eq!(ctx.payer, admin());
    let before = ctx.clone();
    assert_eq!(initialize_authority(&mut ctx, 1), Err(ErrorCode::AlreadyInitialized));
    assert_eq!(ctx, before);
}

#[test]
fn authorize_twice_is_authorize_once() {
    let mut once = ManageAuthority { vault_authority: VaultAuthority::new(7), admin: admin() };
    assert_eq!(authorize_program(&mut once, program(1)), Ok(()));
    let mut twice = once.clone();
    assert_eq!(authorize_program(&mut twice, program(1)), Ok(()));
    assert_eq!(twice, once);
    assert_eq!(once.vault_authority.authorized_programs, vec![program(1)]);
    assert!(once.vault_authority.is_authorized(&program(1)));
    assert!(!once.vault_authority.is_authorized(&program(2)));
}

#[test]
fn authorize_keeps_order_and_bump() {
    let mut ctx = ManageAuthority { vault_authority: VaultAuthority::new(7), admin: admin() };
    for tag in [3u8, 1, 2, 1, 3] {
        assert_eq!(authorize_program(&mut ctx, program(tag)), Ok(()));
    }
    assert_eq!(
        ctx.vault_authority.authorized_programs,
        vec![program(3), program(1), program(2)]
    );
    assert_eq!(ctx.vault_authority.bump, 7);
    assert_eq!(ctx.admin, admin());
}

#[test]
fn registry_is_full_after_five_programs() {
    assert_eq!(MAX_AUTHORIZED_PROGRAMS, 5);
    let mut ctx = ManageAuthority { vault_authority: VaultAuthority::new(7), admin: admin() };
    for tag in 1u8..=5 {
        assert_eq!(authorize_program(&mut ctx, program(tag)), Ok(()));
    }
    let before = ctx.clone();
    assert_eq!(authorize_program(&mut ctx, program(6)), Err(ErrorCode::RegistryFull));
    assert_eq!(ctx, before);
    assert_eq!(authorize_program(&mut ctx, program(4)), Ok(()));
    assert_eq!(ctx, before);
    assert!(!ctx.vault_authority.is_authorized(&program(6)));
}

#[test]
fn revoke_removes_only_the_named_program() {
    let mut ctx = ManageAuthority { vault_authority: VaultAuthority::new(7), admin: admin() };
    for tag in 1u8..=5 {
        assert_eq!(authorize_program(&mut ctx, program(tag)), Ok(()));
    }
    assert_eq!(revoke_program(&mut ctx, program(3)), Ok(()));
    assert_eq!(
        ctx.vault_authority.authorized_programs,
        vec![program(1), program(2), program(4), program(5)]
    );
    assert!(!ctx.vault_authority.is_authorized(&program(3)));
    let before = ctx.clone();
    assert_eq!(revoke_program(&mut ctx, program(9)), Ok(()));
    assert_eq!(ctx, before);
    assert_eq!(authorize_program(&mut ctx, program(6)), Ok(()));
    assert!(ctx.vault_authority.is_authorized(&program(6)));
}

#[test]
fn revoke_says_whether_the_program_was_listed() {
    let mut registry = VaultAuthority::new(1);
    assert_eq!(registry.authorize(program(1)), Ok(()));
    assert!(registry.revoke(&program(1)));
    assert!(!registry.revoke(&program(1)));
    assert!(registry.authorized_programs.is_empty());
    registry.authorized_programs = vec![program(2), program(1), program(2)];
    assert!(registry.revoke(&program(2)));
    assert_eq!(registry.authorized_programs, vec![program(1)]);
}
