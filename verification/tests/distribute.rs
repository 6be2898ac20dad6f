use solana_program::program_option::COption;
use solana_program::program_pack::Pack;
use solana_program::pubkey::Pubkey;
use spl_associated_token_account::get_associated_token_address;
use token_vesting::accounts::AccountView;
use token_vesting::errors::{TransitionError, VestingError};
use token_vesting::instruction::RecipientData;
use token_vesting::processor::{
    process_distribute_to_all, process_fund, process_initialize_vesting, DistributePlan,
};

fn d_view(key: &Pubkey, owner: &Pubkey, is_signer: bool, data: Vec<u8>) -> AccountView {
    AccountView {
        key: key.to_bytes().to_vec(),
        owner: owner.to_bytes().to_vec(),
        is_signer,
        data,
    }
}

fn d_mint_data() -> Vec<u8> {
    let mint = spl_token::state::Mint {
        mint_authority: COption::None,
        supply: 0,
        decimals: 6,
        is_initialized: true,
        freeze_authority: COption::None,
    };
    let mut buf = vec![0u8; 82];
    spl_token::state::Mint::pack(mint, &mut buf).unwrap();
    buf
}

fn d_token_account_data(mint: &Pubkey, owner: &Pubkey, amount: u64) -> Vec<u8> {
    let acct = spl_token::state::Account {
        mint: *mint,
        owner: *owner,
        amount,
        delegate: COption::None,
        state: spl_token::state::AccountState::Initialized,
        is_native: COption::None,
        delegated_amount: 0,
        close_authority: COption::None,
    };
    let mut buf = vec![0u8; 165];
    spl_token::state::Account::pack(acct, &mut buf).unwrap();
    buf
}

struct DistCtx {
    program_id: Vec<u8>,
    creator: AccountView,
    vesting: AccountView,
    vault: AccountView,
    authority: AccountView,
    atas: Vec<AccountView>,
    wallet: Pubkey,
    ata_key: Pubkey,
}

/// A funded vesting: schedule {cliff 300s, vesting 1200s, tge 1000bp},
/// total 1_000_000, one recipient holding the whole pool, funded at 1000.
fn d_ctx() -> DistCtx {
    let program_id = Pubkey::new_from_array([9u8; 32]);
    let creator_key = Pubkey::new_from_array([1u8; 32]);
    let mint_key = Pubkey::new_from_array([2u8; 32]);
    let funder_key = Pubkey::new_from_array([3u8; 32]);
    let wallet = Pubkey::new_from_array([5u8; 32]);
    let nonce: u64 = 42;
    let (vesting_key, _) = Pubkey::find_program_address(
        &[b"vesting", creator_key.as_ref(), &nonce.to_le_bytes()],
        &program_id,
    );
    let (vault_key, _) =
        Pubkey::find_program_address(&[b"vault", vesting_key.as_ref()], &program_id);
    let (authority_key, _) =
        Pubkey::find_program_address(&[b"authority", vesting_key.as_ref()], &program_id);
    let pid_bytes = program_id.to_bytes().to_vec();
    let created = process_initialize_vesting(
        &pid_bytes,
        &d_view(&creator_key, &solana_program::system_program::ID, true, vec![]),
        &d_view(&vesting_key, &solana_program::system_program::ID, false, vec![]),
        &d_view(&vault_key, &solana_program::system_program::ID, false, vec![]),
        &d_view(&mint_key, &spl_token::ID, false, d_mint_data()),
        &vec![RecipientData { wallet: wallet.to_bytes().to_vec(), basis_points: 10000 }],
        300,
        1200,
        1000,
        nonce,
    )
    .unwrap();
    let funded = process_fund(
        &pid_bytes,
        &d_view(&funder_key, &solana_program::system_program::ID, true, vec![]),
        &d_view(
            &Pubkey::new_from_array([4u8; 32]),
            &spl_token::ID,
            false,
            d_token_account_data(&mint_key, &funder_key, 2_000_000),
        ),
        &d_view(&vault_key, &spl_token::ID, false, vec![]),
        &d_view(&vesting_key, &program_id, false, created.record.pack()),
        1_000_000,
        1000,
    )
    .unwrap();
    let ata_key = get_associated_token_address(&wallet, &mint_key);
    DistCtx {
        program_id: pid_bytes,
        creator: d_view(&creator_key, &solana_program::system_program::ID, true, vec![]),
        vesting: d_view(&vesting_key, &program_id, false, funded.record.pack()),
        vault: d_view(
            &vault_key,
            &spl_token::ID,
            false,
            d_token_account_data(&mint_key, &authority_key, 1_000_000),
        ),
        authority: d_view(&authority_key, &program_id, false, vec![]),
        atas: vec![d_view(
            &ata_key,
            &spl_token::ID,
            false,
            d_token_account_data(&mint_key, &wallet, 0),
        )],
        wallet,
        ata_key,
    }
}

fn d_run(ctx: &DistCtx, now: i64) -> Result<DistributePlan, TransitionError> {
    process_distribute_to_all(
        &ctx.program_id,
        &ctx.creator,
        &ctx.vesting,
        &ctx.vault,
        &ctx.authority,
        &ctx.atas,
        now,
    )
}

#[test]
fn distribute_pays_tge_share_right_after_funding() {
    let ctx = d_ctx();
    let plan = d_run(&ctx, 1000).unwrap();
    assert_eq!(plan.transfers.len(), 1);
    assert_eq!(plan.transfers[0].to, ctx.ata_key.to_bytes().to_vec());
    assert_eq!(plan.transfers[0].amount, 100_000);
    assert_eq!(plan.total_distributed, 100_000);
    assert_eq!(plan.record.recipients[0].claimed_amount, 100_000);
    assert_eq!(plan.record.recipients[0].last_claim_time, 1000);
    assert_eq!(plan.record.last_distribution_time, 1000);
}

#[test]
fn distribute_mid_window_pays_linear_delta_and_converges() {
    let mut ctx = d_ctx();
    // Round one at funding time: the 100_000 TGE share.
    let plan1 = d_run(&ctx, 1000).unwrap();
    assert_eq!(plan1.total_distributed, 100_000);
    // Round two mid-window (elapsed 750): 550_000 vested, 450_000 new.
    ctx.vesting.data = plan1.record.pack();
    let plan2 = d_run(&ctx, 1750).unwrap();
    assert_eq!(plan2.total_distributed, 450_000);
    assert_eq!(plan2.record.recipients[0].claimed_amount, 550_000);
    // Round three after the vesting period: the remainder; the recipient's
    // claims now sum to exactly its whole share.
    ctx.vesting.data = plan2.record.pack();
    let plan3 = d_run(&ctx, 2200).unwrap();
    assert_eq!(plan3.total_distributed, 450_000);
    assert_eq!(plan3.record.recipients[0].claimed_amount, 1_000_000);
    // Nothing is ever claimable again.
    ctx.vesting.data = plan3.record.pack();
    assert!(matches!(
        d_run(&ctx, 3000),
        Err(TransitionError::Vesting(VestingError::NoClaimableAmount))
    ));
}

#[test]
fn distribute_rejects_within_cooldown_and_accepts_at_boundary() {
    let mut ctx = d_ctx();
    let plan1 = d_run(&ctx, 1000).unwrap();
    ctx.vesting.data = plan1.record.pack();
    // 59 seconds later: still cooling down.
    assert!(matches!(
        d_run(&ctx, 1059),
        Err(TransitionError::Vesting(VestingError::DistributionCooldown))
    ));
    // Exactly 60 seconds later the cooldown no longer applies; the round
    // fails only because nothing new has vested yet.
    assert!(matches!(
        d_run(&ctx, 1060),
        Err(TransitionError::Vesting(VestingError::NoClaimableAmount))
    ));
}

#[test]
fn distribute_rejects_foreign_caller() {
    let mut ctx = d_ctx();
    let stranger = Pubkey::new_from_array([66u8; 32]);
    ctx.creator = d_view(&stranger, &solana_program::system_program::ID, true, vec![]);
    assert!(matches!(
        d_run(&ctx, 1000),
        Err(TransitionError::Vesting(VestingError::NotInitializer))
    ));
}

#[test]
fn distribute_rejects_unsigned_caller() {
    let mut ctx = d_ctx();
    ctx.creator.is_signer = false;
    assert!(matches!(
        d_run(&ctx, 1000),
        Err(TransitionError::Vesting(VestingError::NotSigner))
    ));
}

#[test]
fn distribute_rejects_unfunded_record() {
    let mut ctx = d_ctx();
    // Clear start_time (bytes 97..105) and the finalized flag (byte 132).
    for b in ctx.vesting.data.iter_mut().skip(97).take(8) {
        *b = 0;
    }
    assert!(matches!(
        d_run(&ctx, 1000),
        Err(TransitionError::Vesting(VestingError::NotFunded))
    ));
}

#[test]
fn distribute_rejects_unfinalized_record() {
    let mut ctx = d_ctx();
    ctx.vesting.data[132] = 0;
    assert!(matches!(
        d_run(&ctx, 1000),
        Err(TransitionError::Vesting(VestingError::NotFinalized))
    ));
}

#[test]
fn distribute_rejects_wrong_account_count() {
    let mut ctx = d_ctx();
    ctx.atas = vec![];
    assert!(matches!(
        d_run(&ctx, 1000),
        Err(TransitionError::Vesting(VestingError::InvalidATACount))
    ));
}

#[test]
fn distribute_rejects_non_canonical_recipient_account() {
    let mut ctx = d_ctx();
    ctx.atas[0].key = vec![99u8; 32];
    assert!(matches!(
        d_run(&ctx, 1000),
        Err(TransitionError::Vesting(VestingError::InvalidRecipientATA))
    ));
}

#[test]
fn distribute_rejects_recipient_account_owned_by_other_wallet() {
    let mut ctx = d_ctx();
    let mint_key = Pubkey::new_from_array([2u8; 32]);
    let other = Pubkey::new_from_array([88u8; 32]);
    ctx.atas[0].data = d_token_account_data(&mint_key, &other, 0);
    assert!(matches!(
        d_run(&ctx, 1000),
        Err(TransitionError::Vesting(VestingError::InvalidRecipientATA))
    ));
}

#[test]
fn distribute_rejects_recipient_account_with_other_mint() {
    let mut ctx = d_ctx();
    let other_mint = Pubkey::new_from_array([88u8; 32]);
    ctx.atas[0].data = d_token_account_data(&other_mint, &ctx.wallet, 0);
    assert!(matches!(
        d_run(&ctx, 1000),
        Err(TransitionError::Vesting(VestingError::MintMismatch))
    ));
}

#[test]
fn distribute_rejects_corrupted_share_table() {
    // Damage the stored slot's share (bytes 173..175) so the shares no
    // longer sum to the whole pool: the stored-state check fails closed.
    let mut ctx = d_ctx();
    ctx.vesting.data[173] = 0xFF;
    ctx.vesting.data[174] = 0x7F;
    assert!(matches!(d_run(&ctx, 1000), Err(TransitionError::InvalidAccountData)));
}

#[test]
fn distribute_rejects_wrong_authority_account() {
    let mut ctx = d_ctx();
    ctx.authority.key = vec![99u8; 32];
    assert!(matches!(
        d_run(&ctx, 1000),
        Err(TransitionError::Vesting(VestingError::InvalidAuthority))
    ));
}

#[test]
fn distribute_rejects_vault_not_held_by_authority() {
    let mut ctx = d_ctx();
    let mint_key = Pubkey::new_from_array([2u8; 32]);
    let other = Pubkey::new_from_array([88u8; 32]);
    ctx.vault.data = d_token_account_data(&mint_key, &other, 1_000_000);
    assert!(matches!(
        d_run(&ctx, 1000),
        Err(TransitionError::Vesting(VestingError::InvalidTokenOwner))
    ));
}

#[test]
fn distribute_two_recipients_split_shares_with_floor_rounding() {
    let program_id = Pubkey::new_from_array([9u8; 32]);
    let creator_key = Pubkey::new_from_array([1u8; 32]);
    let mint_key = Pubkey::new_from_array([2u8; 32]);
    let funder_key = Pubkey::new_from_array([3u8; 32]);
    let wallet_a = Pubkey::new_from_array([5u8; 32]);
    let wallet_b = Pubkey::new_from_array([6u8; 32]);
    let nonce: u64 = 43;
    let (vesting_key, _) = Pubkey::find_program_address(
        &[b"vesting", creator_key.as_ref(), &nonce.to_le_bytes()],
        &program_id,
    );
    let (vault_key, _) =
        Pubkey::find_program_address(&[b"vault", vesting_key.as_ref()], &program_id);
    let (authority_key, _) =
        Pubkey::find_program_address(&[b"authority", vesting_key.as_ref()], &program_id);
    let pid_bytes = program_id.to_bytes().to_vec();
    let created = process_initialize_vesting(
        &pid_bytes,
        &d_view(&creator_key, &solana_program::system_program::ID, true, vec![]),
        &d_view(&vesting_key, &solana_program::system_program::ID, false, vec![]),
        &d_view(&vault_key, &solana_program::system_program::ID, false, vec![]),
        &d_view(&mint_key, &spl_token::ID, false, d_mint_data()),
        &vec![
            RecipientData { wallet: wallet_a.to_bytes().to_vec(), basis_points: 2500 },
            RecipientData { wallet: wallet_b.to_bytes().to_vec(), basis_points: 7500 },
        ],
        300,
        1200,
        1000,
        nonce,
    )
    .unwrap();
    let funded = process_fund(
        &pid_bytes,
        &d_view(&funder_key, &solana_program::system_program::ID, true, vec![]),
        &d_view(
            &Pubkey::new_from_array([4u8; 32]),
            &spl_token::ID,
            false,
            d_token_account_data(&mint_key, &funder_key, 2_000_000),
        ),
        &d_view(&vault_key, &spl_token::ID, false, vec![]),
        &d_view(&vesting_key, &program_id, false, created.record.pack()),
        1_000_001,
        1000,
    )
    .unwrap();
    let ata_a = get_associated_token_address(&wallet_a, &mint_key);
    let ata_b = get_associated_token_address(&wallet_b, &mint_key);
    let ctx = DistCtx {
        program_id: pid_bytes,
        creator: d_view(&creator_key, &solana_program::system_program::ID, true, vec![]),
        vesting: d_view(&vesting_key, &program_id, false, funded.record.pack()),
        vault: d_view(
            &vault_key,
            &spl_token::ID,
            false,
            d_token_account_data(&mint_key, &authority_key, 1_000_001),
        ),
        authority: d_view(&authority_key, &program_id, false, vec![]),
        atas: vec![
            d_view(&ata_a, &spl_token::ID, false, d_token_account_data(&mint_key, &wallet_a, 0)),
            d_view(&ata_b, &spl_token::ID, false, d_token_account_data(&mint_key, &wallet_b, 0)),
        ],
        wallet: wallet_a,
        ata_key: ata_a,
    };
    // At funding time only the TGE share vests.  Each recipient's slice is
    // floored: 250_000 of 250_000.25 and 750_000 of 750_000.75, then 10%
    // of each at the TGE.
    let plan = d_run(&ctx, 1000).unwrap();
    assert_eq!(plan.transfers.len(), 2);
    assert_eq!(plan.transfers[0].to, ata_a.to_bytes().to_vec());
    assert_eq!(plan.transfers[0].amount, 25_000);
    assert_eq!(plan.transfers[1].to, ata_b.to_bytes().to_vec());
    assert_eq!(plan.transfers[1].amount, 75_000);
    assert_eq!(plan.total_distributed, 100_000);
    // After the whole vesting period the recipients settle at exactly
    // their floored slices; the odd unit stays in the vault.
    let mut ctx2 = ctx;
    ctx2.vesting.data = plan.record.pack();
    let plan2 = d_run(&ctx2, 2200).unwrap();
    assert_eq!(plan2.record.recipients[0].claimed_amount, 250_000);
    assert_eq!(plan2.record.recipients[1].claimed_amount, 750_000);
    assert_eq!(plan2.total_distributed, 900_000);
}
