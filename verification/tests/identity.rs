use anchor_lang::prelude::Pubkey;
use sigil_registry::identity::{vault_authority, Identity, VAULT_AUTHORITY_SEED};
use sigil_registry::instructions::request_unstake::{self, RequestUnstake};
use sigil_registry::instructions::stake_usdc::{self, StakeUsdc};
use sigil_registry::instructions::withdraw_stake::{self, WithdrawStake};
use sigil_registry::state::Auditor;
use sigil_registry::tier::AuditorTier;

#[test]
fn identities_compare_by_their_bytes() {
    let mut bytes = [7u8; 32];
    let a = Identity::new(bytes);
    assert!(a.same_as(&Identity::new([7u8; 32])));
    bytes[31] = 8;
    assert!(!a.same_as(&Identity::new(bytes)));
    bytes[31] = 7;
    bytes[0] = 0;
    assert!(!a.same_as(&Identity::new(bytes)));
    assert_eq!(a, Identity::new([7u8; 32]));
    assert_ne!(a, Identity::new(bytes));
}

#[test]
fn vault_authority_is_the_derived_address() {
    let program = [42u8; 32];
    let found = vault_authority(&Identity::new(program)).unwrap();
    let (address, bump) =
        Pubkey::find_program_address(&[b"vault_authority"], &Pubkey::new_from_array(program));
    assert_eq!(found.address.bytes, address.to_bytes());
    assert_eq!(found.bump, bump);
    assert_ne!(found.address.bytes, program);
    let made = Pubkey::create_program_address(
        &[b"vault_authority", &[found.bump]],
        &Pubkey::new_from_array(program),
    )
    .unwrap();
    assert_eq!(made.to_bytes(), found.address.bytes);
}

#[test]
fn vault_authority_depends_on_the_program() {
    let one = vault_authority(&Identity::new([1u8; 32])).unwrap();
    let two = vault_authority(&Identity::new([2u8; 32])).unwrap();
    assert_ne!(one.address.bytes, two.address.bytes);
    let again = vault_authority(&Identity::new([1u8; 32])).unwrap();
    assert_eq!(one.address.bytes, again.address.bytes);
    assert_eq!(one.bump, again.bump);
}

#[test]
fn release_is_signed_by_the_vault_authority() {
    let owner = Identity::new([8u8; 32]);
    let program = Identity::new([42u8; 32]);
    let auditor = Auditor {
        pubkey: owner,
        tier: AuditorTier::Tier3,
        skills_audited: 0,
        reputation: 20,
        total_earned: 0,
        stake_amount: 0,
        active: false,
        locked_until: 0,
    };
    let mut stake = StakeUsdc { auditor };
    stake_usdc::handler(&mut stake, 50_000_000).unwrap();
    let mut request = RequestUnstake { auditor: stake.auditor, authority: owner };
    request_unstake::handler(&mut request, 0).unwrap();
    let mut ctx = WithdrawStake { auditor: request.auditor, authority: owner, program_id: program };
    let release = withdraw_stake::handler(&mut ctx, 604_800).unwrap();
    let signer = release.signer.unwrap();
    let expected = vault_authority(&program).unwrap();
    assert_eq!(signer.address.bytes, expected.address.bytes);
    assert_eq!(signer.bump, expected.bump);
}

#[test]
fn vault_authority_seed_spells_its_name() {
    assert_eq!(&VAULT_AUTHORITY_SEED, b"vault_authority");
}
