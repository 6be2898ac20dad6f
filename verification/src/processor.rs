//! The three transitions of the vesting state machine.  Each one validates
//! a set of account views in a fixed order, and either reports the first
//! failing check or returns a plan: the new record plus the external effects
//! (allocations, token transfers) the caller's glue must perform atomically.

use vstd::prelude::*;
use crate::accounts::{copy_bytes, key_eq, AccountView};
use crate::errors::{TransitionError, VestingError};
use crate::instruction::RecipientData;
use crate::curve::{calculate_vested_amount, lemma_mul_div_le, lemma_vested_bounds,
    spec_vested_amount,
};
use crate::ledger::{
    ata_of, derive_ata, derive_authority_pda, derive_vault_pda, derive_vesting_record_pda,
    is_system_program_id, is_system_program_key, is_token_program_id, is_token_program_key,
    check_mint, mint_parses, spec_authority_pda, spec_vault_pda, spec_vesting_record_pda,
    token_account_of, unpack_token_account, TokenAccountView,
};
use vstd::arithmetic::mul::{lemma_mul_inequality, lemma_mul_upper_bound};
use vstd::arithmetic::div_mod::{lemma_div_is_ordered, lemma_div_multiples_vanish};
use crate::state::{
    dec_is_finalized, dec_is_initialized, dec_initializer, dec_last_distribution_time, dec_mint,
    dec_basis_points, dec_claimed_amount, dec_last_claim_time, dec_recipient_count, dec_schedule,
    dec_start_time, dec_total_amount, dec_vault, dec_wallet, is_zero_key, lemma_pack_roundtrip,
    spec_canonical, spec_pack, DISTRIBUTION_COOLDOWN,
    spec_recipient_default, spec_slot_decoded, spec_zero_key, Recipient, VestingAccount,
    VestingSchedule, BASIS_POINTS_TOTAL, KEY_LEN, MAX_CLIFF_DURATION, MAX_RECIPIENTS,
    MAX_VESTING_DURATION, VESTING_ACCOUNT_LEN,
};

verus! {

// ---------------------------------------------------------------------------
// Create: validate the schedule and recipient list, and plan the allocation
// of the record and its vault.
// ---------------------------------------------------------------------------

/// Everything the caller's glue must do to finish a create: allocate the
/// record account (owned by this program) and the vault token account, make
/// the derived authority the vault's owner, and store the packed record.
pub struct CreatePlan {
    /// The record to pack and store at the record address.
    pub record: VestingAccount,
    /// Bump of the record's derived address, for signing its allocation.
    pub vesting_bump: u8,
    /// Bump of the vault's derived address.
    pub vault_bump: u8,
    /// Bump of the vault authority's derived address.
    pub authority_bump: u8,
    /// The vault's spending authority: the third derived address.
    pub vault_authority: Vec<u8>,
}

/// Sum of the basis points of the first `n` recipient entries.
pub open spec fn spec_rd_sum(rs: Seq<RecipientData>, n: int) -> int
    decreases n,
{
    if n <= 0 {
        0
    } else {
        spec_rd_sum(rs, n - 1) + rs[n - 1].basis_points
    }
}

/// Entry `j` repeats a wallet that appeared earlier in the list.
pub open spec fn spec_dup_exists(rs: Seq<RecipientData>, j: int) -> bool {
    exists|k: int| 0 <= k < j && rs[k].wallet@ == rs[j].wallet@
}

/// First failure among the first `n` recipient entries, scanning in order;
/// each entry is held to: wallet non-zero, wallet not seen before, share
/// non-zero.
pub open spec fn spec_recipients_err_upto(rs: Seq<RecipientData>, n: int) -> Option<VestingError>
    decreases n,
{
    if n <= 0 {
        None
    } else {
        let prev = spec_recipients_err_upto(rs, n - 1);
        if prev is Some {
            prev
        } else if rs[n - 1].wallet@ == spec_zero_key() {
            Some(VestingError::InvalidRecipientWallet)
        } else if spec_dup_exists(rs, n - 1) {
            Some(VestingError::DuplicateRecipient)
        } else if rs[n - 1].basis_points == 0 {
            Some(VestingError::ZeroPercentage)
        } else {
            None
        }
    }
}

proof fn lemma_recipients_err_stable(rs: Seq<RecipientData>, n: int, m: int)
    requires
        0 <= n <= m,
        spec_recipients_err_upto(rs, n) is Some,
    ensures
        spec_recipients_err_upto(rs, m) == spec_recipients_err_upto(rs, n),
    decreases m - n,
{
    if m > n {
        lemma_recipients_err_stable(rs, n, m - 1);
    }
}

/// The create transition's verdict, in the order the checks are made.
pub open spec fn spec_create_err(
    program_id: Seq<u8>,
    initializer: AccountView,
    vesting_pda: AccountView,
    vault_pda: AccountView,
    mint: AccountView,
    recipients: Seq<RecipientData>,
    cliff_period: i64,
    vesting_period: i64,
    tge_basis_points: u16,
    nonce: u64,
) -> Option<TransitionError> {
    if !initializer.is_signer {
        Some(TransitionError::Vesting(VestingError::NotSigner))
    } else if spec_vesting_record_pda(program_id, initializer.key@, nonce) is None {
        Some(TransitionError::Vesting(VestingError::InvalidPDA))
    } else if vesting_pda.key@ != (spec_vesting_record_pda(program_id, initializer.key@, nonce)->0).0 {
        Some(TransitionError::Vesting(VestingError::InvalidPDA))
    } else if spec_vault_pda(program_id, vesting_pda.key@) is None {
        Some(TransitionError::Vesting(VestingError::InvalidPDA))
    } else if vault_pda.key@ != (spec_vault_pda(program_id, vesting_pda.key@)->0).0 {
        Some(TransitionError::Vesting(VestingError::InvalidPDA))
    } else if spec_authority_pda(program_id, vesting_pda.key@) is None {
        Some(TransitionError::Vesting(VestingError::InvalidPDA))
    } else if vesting_pda.data@.len() != 0 {
        Some(TransitionError::Vesting(VestingError::AlreadyInitialized))
    } else if !is_system_program_id(vesting_pda.owner@) {
        Some(TransitionError::Vesting(VestingError::InvalidAccountOwner))
    } else if !is_system_program_id(vault_pda.owner@) {
        Some(TransitionError::Vesting(VestingError::InvalidAccountOwner))
    } else if !is_token_program_id(mint.owner@) {
        Some(TransitionError::Vesting(VestingError::InvalidMint))
    } else if !mint_parses(mint.data@) {
        Some(TransitionError::InvalidAccountData)
    } else if vesting_period > MAX_VESTING_DURATION {
        Some(TransitionError::Vesting(VestingError::VestingDurationTooLong))
    } else if cliff_period > MAX_CLIFF_DURATION {
        Some(TransitionError::Vesting(VestingError::CliffDurationTooLong))
    } else if cliff_period < 0 {
        Some(TransitionError::Vesting(VestingError::InvalidVestingPeriod))
    } else if cliff_period >= vesting_period {
        Some(TransitionError::Vesting(VestingError::CliffExceedsVesting))
    } else if tge_basis_points > BASIS_POINTS_TOTAL {
        Some(TransitionError::Vesting(VestingError::InvalidPercentage))
    } else if recipients.len() == 0 || recipients.len() > MAX_RECIPIENTS {
        Some(TransitionError::Vesting(VestingError::InvalidRecipientCount))
    } else if spec_recipients_err_upto(recipients, recipients.len() as int) is Some {
        Some(
            TransitionError::Vesting(
                spec_recipients_err_upto(recipients, recipients.len() as int)->0,
            ),
        )
    } else if spec_rd_sum(recipients, recipients.len() as int) != 10000 {
        Some(TransitionError::Vesting(VestingError::InvalidTotalPercentage))
    } else {
        None
    }
}

/// What a successful create yields: a fresh unfunded record carrying the
/// validated schedule and recipients, plus the three derivation bumps.
pub open spec fn spec_create_ok(
    plan: CreatePlan,
    program_id: Seq<u8>,
    initializer: AccountView,
    vesting_pda: AccountView,
    vault_pda: AccountView,
    mint: AccountView,
    recipients: Seq<RecipientData>,
    cliff_period: i64,
    vesting_period: i64,
    tge_basis_points: u16,
    nonce: u64,
) -> bool {
    &&& plan.record.wf()
    &&& plan.record.is_initialized == true
    &&& plan.record.initializer@ == initializer.key@
    &&& plan.record.mint@ == mint.key@
    &&& plan.record.vault@ == vault_pda.key@
    &&& plan.record.start_time == 0
    &&& plan.record.total_amount == 0
    &&& plan.record.schedule == (VestingSchedule { cliff_period, vesting_period, tge_basis_points })
    &&& plan.record.recipient_count == recipients.len()
    &&& plan.record.is_finalized == false
    &&& plan.record.last_distribution_time == 0
    &&& plan.record.recipients@.len() == MAX_RECIPIENTS
    &&& forall|i: int|
        0 <= i < recipients.len() ==> {
            let slot = #[trigger] plan.record.recipients@[i];
            &&& slot.wallet@ == recipients[i].wallet@
            &&& slot.basis_points == recipients[i].basis_points
            &&& slot.claimed_amount == 0
            &&& slot.last_claim_time == 0
        }
    &&& forall|i: int|
        recipients.len() <= i < MAX_RECIPIENTS ==> spec_recipient_default(
            #[trigger] plan.record.recipients@[i],
        )
    &&& Some((vesting_pda.key@, plan.vesting_bump)) == spec_vesting_record_pda(
        program_id,
        initializer.key@,
        nonce,
    )
    &&& Some((vault_pda.key@, plan.vault_bump)) == spec_vault_pda(program_id, vesting_pda.key@)
    &&& Some((plan.vault_authority@, plan.authority_bump)) == spec_authority_pda(
        program_id,
        vesting_pda.key@,
    )
}

/// The create transition.  Checks, in order: the creator signed; the record
/// and vault addresses match their derivations; both are unallocated; the
/// mint is a real token mint; the schedule respects the duration and share
/// ceilings; the recipient list is well formed and allocates exactly the
/// whole pool.  On success, no token moves: the plan only allocates and
/// stores the configured, unfunded record.
#[verifier::loop_isolation(false)]
pub fn process_initialize_vesting(
    program_id: &Vec<u8>,
    initializer: &AccountView,
    vesting_pda: &AccountView,
    vault_pda: &AccountView,
    mint: &AccountView,
    recipients: &Vec<RecipientData>,
    cliff_period: i64,
    vesting_period: i64,
    tge_basis_points: u16,
    nonce: u64,
) -> (r: Result<CreatePlan, TransitionError>)
    requires
        program_id@.len() == KEY_LEN,
        initializer.wf(),
        vesting_pda.wf(),
        vault_pda.wf(),
        mint.wf(),
        forall|i: int|
            0 <= i < recipients@.len() ==> (#[trigger] recipients@[i]).wallet@.len() == KEY_LEN,
    ensures
        r is Err <==> spec_create_err(
            program_id@,
            *initializer,
            *vesting_pda,
            *vault_pda,
            *mint,
            recipients@,
            cliff_period,
            vesting_period,
            tge_basis_points,
            nonce,
        ) is Some,
        r matches Err(e) ==> Some(e) == spec_create_err(
            program_id@,
            *initializer,
            *vesting_pda,
            *vault_pda,
            *mint,
            recipients@,
            cliff_period,
            vesting_period,
            tge_basis_points,
            nonce,
        ),
        r matches Ok(plan) ==> spec_create_ok(
            plan,
            program_id@,
            *initializer,
            *vesting_pda,
            *vault_pda,
            *mint,
            recipients@,
            cliff_period,
            vesting_period,
            tge_basis_points,
            nonce,
        ),
{
    if !initializer.is_signer {
        return Err(TransitionError::Vesting(VestingError::NotSigner));
    }
    let vesting_derived: (Vec<u8>, u8) = match derive_vesting_record_pda(
        program_id,
        &initializer.key,
        nonce,
    ) {
        None => {
            return Err(TransitionError::Vesting(VestingError::InvalidPDA));
        },
        Some(p) => p,
    };
    if !key_eq(&vesting_pda.key, &vesting_derived.0) {
        return Err(TransitionError::Vesting(VestingError::InvalidPDA));
    }
    let vault_derived: (Vec<u8>, u8) = match derive_vault_pda(program_id, &vesting_pda.key) {
        None => {
            return Err(TransitionError::Vesting(VestingError::InvalidPDA));
        },
        Some(p) => p,
    };
    if !key_eq(&vault_pda.key, &vault_derived.0) {
        return Err(TransitionError::Vesting(VestingError::InvalidPDA));
    }
    let authority_derived: (Vec<u8>, u8) = match derive_authority_pda(
        program_id,
        &vesting_pda.key,
    ) {
        None => {
            return Err(TransitionError::Vesting(VestingError::InvalidPDA));
        },
        Some(p) => p,
    };
    if vesting_pda.data.len() != 0 {
        return Err(TransitionError::Vesting(VestingError::AlreadyInitialized));
    }
    if !is_system_program_key(&vesting_pda.owner) {
        return Err(TransitionError::Vesting(VestingError::InvalidAccountOwner));
    }
    if !is_system_program_key(&vault_pda.owner) {
        return Err(TransitionError::Vesting(VestingError::InvalidAccountOwner));
    }
    if !is_token_program_key(&mint.owner) {
        return Err(TransitionError::Vesting(VestingError::InvalidMint));
    }
    if !check_mint(mint.data.as_slice()) {
        return Err(TransitionError::InvalidAccountData);
    }
    if vesting_period > MAX_VESTING_DURATION {
        return Err(TransitionError::Vesting(VestingError::VestingDurationTooLong));
    }
    if cliff_period > MAX_CLIFF_DURATION {
        return Err(TransitionError::Vesting(VestingError::CliffDurationTooLong));
    }
    if cliff_period < 0 {
        return Err(TransitionError::Vesting(VestingError::InvalidVestingPeriod));
    }
    if cliff_period >= vesting_period {
        return Err(TransitionError::Vesting(VestingError::CliffExceedsVesting));
    }
    if tge_basis_points > BASIS_POINTS_TOTAL {
        return Err(TransitionError::Vesting(VestingError::InvalidPercentage));
    }
    let count: usize = recipients.len();
    if count == 0 || count > MAX_RECIPIENTS {
        return Err(TransitionError::Vesting(VestingError::InvalidRecipientCount));
    }

    let mut total_bp: u32 = 0;
    let mut j: usize = 0;
    while j < count
        invariant
            j <= count,
            count == recipients@.len(),
            1 <= count <= MAX_RECIPIENTS,
            spec_recipients_err_upto(recipients@, j as int) is None,
            total_bp == spec_rd_sum(recipients@, j as int),
            total_bp <= 65535 * j,
            forall|i: int|
                0 <= i < recipients@.len() ==> (#[trigger] recipients@[i]).wallet@.len() == KEY_LEN,
        decreases count - j,
    {
        let rj = &recipients[j];
        if is_zero_key(&rj.wallet) {
            proof {
                lemma_recipients_err_stable(recipients@, j + 1, count as int);
            }
            return Err(TransitionError::Vesting(VestingError::InvalidRecipientWallet));
        }
        let mut k: usize = 0;
        while k < j
            invariant
                k <= j < count,
                count == recipients@.len(),
                forall|t: int| 0 <= t < k ==> recipients@[t].wallet@ != recipients@[j as int].wallet@,
            decreases j - k,
        {
            if key_eq(&recipients[k].wallet, &rj.wallet) {
                proof {
                    assert(spec_dup_exists(recipients@, j as int));
                    lemma_recipients_err_stable(recipients@, j + 1, count as int);
                }
                return Err(TransitionError::Vesting(VestingError::DuplicateRecipient));
            }
            k = k + 1;
        }
        proof {
            assert(!spec_dup_exists(recipients@, j as int));
        }
        if rj.basis_points == 0 {
            proof {
                lemma_recipients_err_stable(recipients@, j + 1, count as int);
            }
            return Err(TransitionError::Vesting(VestingError::ZeroPercentage));
        }
        total_bp = total_bp + rj.basis_points as u32;
        j = j + 1;
    }
    if total_bp != 10000 {
        return Err(TransitionError::Vesting(VestingError::InvalidTotalPercentage));
    }

    let mut table: Vec<Recipient> = Vec::new();
    let mut j: usize = 0;
    while j < count
        invariant
            j <= count,
            count == recipients@.len(),
            count <= MAX_RECIPIENTS,
            table@.len() == j,
            forall|i: int|
                0 <= i < recipients@.len() ==> (#[trigger] recipients@[i]).wallet@.len() == KEY_LEN,
            forall|t: int|
                0 <= t < j ==> {
                    let slot = #[trigger] table@[t];
                    &&& slot.wallet@ == recipients@[t].wallet@
                    &&& slot.basis_points == recipients@[t].basis_points
                    &&& slot.claimed_amount == 0
                    &&& slot.last_claim_time == 0
                    &&& slot.wf()
                },
        decreases count - j,
    {
        let src = &recipients[j];
        table.push(
            Recipient {
                wallet: copy_bytes(&src.wallet),
                basis_points: src.basis_points,
                claimed_amount: 0,
                last_claim_time: 0,
            },
        );
        j = j + 1;
    }
    while table.len() < MAX_RECIPIENTS
        invariant
            count <= table@.len() <= MAX_RECIPIENTS,
            count == recipients@.len(),
            forall|t: int|
                0 <= t < count ==> {
                    let slot = #[trigger] table@[t];
                    &&& slot.wallet@ == recipients@[t].wallet@
                    &&& slot.basis_points == recipients@[t].basis_points
                    &&& slot.claimed_amount == 0
                    &&& slot.last_claim_time == 0
                    &&& slot.wf()
                },
            forall|t: int|
                count <= t < table@.len() ==> spec_recipient_default(#[trigger] table@[t])
                    && table@[t].wf(),
        decreases MAX_RECIPIENTS - table@.len(),
    {
        table.push(Recipient::default());
    }

    let record = VestingAccount {
        is_initialized: true,
        initializer: copy_bytes(&initializer.key),
        mint: copy_bytes(&mint.key),
        vault: copy_bytes(&vault_pda.key),
        start_time: 0,
        total_amount: 0,
        schedule: VestingSchedule { cliff_period, vesting_period, tge_basis_points },
        recipients: table,
        recipient_count: count as u8,
        is_finalized: false,
        last_distribution_time: 0,
    };
    Ok(
        CreatePlan {
            record,
            vesting_bump: vesting_derived.1,
            vault_bump: vault_derived.1,
            authority_bump: authority_derived.1,
            vault_authority: authority_derived.0,
        },
    )
}

/// A valid create demands full allocation: when the transition accepts, the
/// shares sum to exactly the whole pool and the recipient count is within
/// capacity.
pub proof fn lemma_create_requires_full_allocation(
    program_id: Seq<u8>,
    initializer: AccountView,
    vesting_pda: AccountView,
    vault_pda: AccountView,
    mint: AccountView,
    recipients: Seq<RecipientData>,
    cliff_period: i64,
    vesting_period: i64,
    tge_basis_points: u16,
    nonce: u64,
)
    requires
        spec_create_err(
            program_id,
            initializer,
            vesting_pda,
            vault_pda,
            mint,
            recipients,
            cliff_period,
            vesting_period,
            tge_basis_points,
            nonce,
        ) is None,
    ensures
        spec_rd_sum(recipients, recipients.len() as int) == 10000,
        1 <= recipients.len() <= MAX_RECIPIENTS,
{
}

// ---------------------------------------------------------------------------
// Fund: one-shot, irreversible deposit that starts the clock.
// ---------------------------------------------------------------------------

/// Everything the caller's glue must do to finish a fund: transfer exactly
/// `amount` from the funder's source token account into the vault, then
/// store the packed record.
pub struct FundPlan {
    /// The record to pack and store back, now funded and finalized.
    pub record: VestingAccount,
    /// How much to move from the source account into the vault.
    pub amount: u64,
}

/// The fund transition's verdict, in the order the checks are made.
pub open spec fn spec_fund_err(
    program_id: Seq<u8>,
    funder: AccountView,
    source_token: AccountView,
    vault_pda: AccountView,
    vesting_pda: AccountView,
    amount: u64,
) -> Option<TransitionError> {
    let d = vesting_pda.data@;
    if !funder.is_signer {
        Some(TransitionError::Vesting(VestingError::NotSigner))
    } else if vesting_pda.owner@ != program_id {
        Some(TransitionError::Vesting(VestingError::InvalidAccountOwner))
    } else if !is_token_program_id(vault_pda.owner@) {
        Some(TransitionError::Vesting(VestingError::InvalidAccountOwner))
    } else if !is_token_program_id(source_token.owner@) {
        Some(TransitionError::Vesting(VestingError::InvalidAccountOwner))
    } else if amount == 0 {
        Some(TransitionError::Vesting(VestingError::InvalidAmount))
    } else if d.len() != VESTING_ACCOUNT_LEN {
        Some(TransitionError::InvalidAccountData)
    } else if !dec_is_initialized(d) {
        Some(TransitionError::Vesting(VestingError::NotInitialized))
    } else if dec_start_time(d) != 0 {
        Some(TransitionError::Vesting(VestingError::AlreadyFunded))
    } else if dec_is_finalized(d) {
        Some(TransitionError::Vesting(VestingError::VestingFinalized))
    } else if spec_vault_pda(program_id, vesting_pda.key@) is None {
        Some(TransitionError::Vesting(VestingError::InvalidPDA))
    } else if vault_pda.key@ != (spec_vault_pda(program_id, vesting_pda.key@)->0).0 {
        Some(TransitionError::Vesting(VestingError::InvalidPDA))
    } else if token_account_of(source_token.data@) is None {
        Some(TransitionError::InvalidAccountData)
    } else if (token_account_of(source_token.data@)->0).1 != funder.key@ {
        Some(TransitionError::Vesting(VestingError::InvalidTokenOwner))
    } else if (token_account_of(source_token.data@)->0).0 != dec_mint(d) {
        Some(TransitionError::Vesting(VestingError::MintMismatch))
    } else if (token_account_of(source_token.data@)->0).2 < amount {
        Some(TransitionError::Vesting(VestingError::InsufficientFunds))
    } else {
        None
    }
}

/// What a successful fund yields: the stored record with the funding time,
/// the pool size and the finalized flag set, and nothing else changed.
pub open spec fn spec_fund_ok(plan: FundPlan, d: Seq<u8>, now: i64, amount: u64) -> bool {
    &&& plan.amount == amount
    &&& plan.record.wf()
    &&& plan.record.is_initialized == true
    &&& plan.record.initializer@ == dec_initializer(d)
    &&& plan.record.mint@ == dec_mint(d)
    &&& plan.record.vault@ == dec_vault(d)
    &&& plan.record.start_time == now
    &&& plan.record.total_amount == amount
    &&& plan.record.schedule == dec_schedule(d)
    &&& plan.record.recipient_count == dec_recipient_count(d)
    &&& plan.record.is_finalized == true
    &&& plan.record.last_distribution_time == dec_last_distribution_time(d)
    &&& plan.record.recipients@.len() == MAX_RECIPIENTS
    &&& forall|i: int|
        0 <= i < MAX_RECIPIENTS ==> spec_slot_decoded(
            #[trigger] plan.record.recipients@[i],
            d,
            i,
            dec_recipient_count(d),
        )
}

/// The fund transition.  Any signer may fund, once: the record must be
/// initialized, not yet funded, not finalized; the vault address must match
/// its derivation; the source token account must belong to the funder, hold
/// the record's mint, and cover the amount.  On success the plan moves
/// exactly `amount` into the vault and stores the record with `start_time =
/// now`, `total_amount = amount`, `is_finalized = true`.
pub fn process_fund(
    program_id: &Vec<u8>,
    funder: &AccountView,
    source_token: &AccountView,
    vault_pda: &AccountView,
    vesting_pda: &AccountView,
    amount: u64,
    now: i64,
) -> (r: Result<FundPlan, TransitionError>)
    requires
        program_id@.len() == KEY_LEN,
        funder.wf(),
        source_token.wf(),
        vault_pda.wf(),
        vesting_pda.wf(),
    ensures
        r is Err <==> spec_fund_err(
            program_id@,
            *funder,
            *source_token,
            *vault_pda,
            *vesting_pda,
            amount,
        ) is Some,
        r matches Err(e) ==> Some(e) == spec_fund_err(
            program_id@,
            *funder,
            *source_token,
            *vault_pda,
            *vesting_pda,
            amount,
        ),
        r matches Ok(plan) ==> spec_fund_ok(plan, vesting_pda.data@, now, amount),
{
    if !funder.is_signer {
        return Err(TransitionError::Vesting(VestingError::NotSigner));
    }
    if !key_eq(&vesting_pda.owner, program_id) {
        return Err(TransitionError::Vesting(VestingError::InvalidAccountOwner));
    }
    if !is_token_program_key(&vault_pda.owner) {
        return Err(TransitionError::Vesting(VestingError::InvalidAccountOwner));
    }
    if !is_token_program_key(&source_token.owner) {
        return Err(TransitionError::Vesting(VestingError::InvalidAccountOwner));
    }
    if amount == 0 {
        return Err(TransitionError::Vesting(VestingError::InvalidAmount));
    }
    let mut record: VestingAccount = match VestingAccount::unpack_from_slice(
        vesting_pda.data.as_slice(),
    ) {
        None => {
            return Err(TransitionError::InvalidAccountData);
        },
        Some(v) => v,
    };
    if !record.is_initialized {
        return Err(TransitionError::Vesting(VestingError::NotInitialized));
    }
    if record.start_time != 0 {
        return Err(TransitionError::Vesting(VestingError::AlreadyFunded));
    }
    if record.is_finalized {
        return Err(TransitionError::Vesting(VestingError::VestingFinalized));
    }
    let vault_derived: (Vec<u8>, u8) = match derive_vault_pda(program_id, &vesting_pda.key) {
        None => {
            return Err(TransitionError::Vesting(VestingError::InvalidPDA));
        },
        Some(p) => p,
    };
    if !key_eq(&vault_pda.key, &vault_derived.0) {
        return Err(TransitionError::Vesting(VestingError::InvalidPDA));
    }
    let source: TokenAccountView = match unpack_token_account(source_token.data.as_slice()) {
        None => {
            return Err(TransitionError::InvalidAccountData);
        },
        Some(v) => v,
    };
    if !key_eq(&source.owner, &funder.key) {
        return Err(TransitionError::Vesting(VestingError::InvalidTokenOwner));
    }
    if !key_eq(&source.mint, &record.mint) {
        return Err(TransitionError::Vesting(VestingError::MintMismatch));
    }
    if source.amount < amount {
        return Err(TransitionError::Vesting(VestingError::InsufficientFunds));
    }
    record.start_time = now;
    record.total_amount = amount;
    record.is_finalized = true;
    Ok(FundPlan { record, amount })
}

/// Funding happens at most once: against a record whose stored bytes are
/// already funded (non-zero start time) or finalized, the fund transition
/// rejects, whatever the amount and whoever the funder.
pub proof fn lemma_fund_at_most_once(
    program_id: Seq<u8>,
    funder: AccountView,
    source_token: AccountView,
    vault_pda: AccountView,
    vesting_pda: AccountView,
    amount: u64,
)
    requires
        vesting_pda.data@.len() == VESTING_ACCOUNT_LEN ==> dec_start_time(vesting_pda.data@) != 0
            || dec_is_finalized(vesting_pda.data@),
    ensures
        spec_fund_err(program_id, funder, source_token, vault_pda, vesting_pda, amount) is Some,
{
}

// ---------------------------------------------------------------------------
// Distribute: pay every recipient its newly vested share, all at once.
// ---------------------------------------------------------------------------

/// One queued payout: `amount` tokens from the vault to the token account
/// `to`, authorized by the derived vault authority.
pub struct TokenTransfer {
    pub to: Vec<u8>,
    pub amount: u64,
}

/// Everything the caller's glue must do to finish a distribution: perform
/// each queued transfer out of the vault, signed with the authority seeds
/// and bump, and only then store the packed record.
pub struct DistributePlan {
    /// The record to pack and store back, with the claims booked.
    pub record: VestingAccount,
    /// The queued transfers, in recipient-slot order.
    pub transfers: Vec<TokenTransfer>,
    /// Bump of the vault authority's derived address, for signing.
    pub authority_bump: u8,
    /// Sum of the queued transfer amounts; always positive.
    pub total_distributed: u64,
}

/// Sum of the stored basis points of the first `n` recipient slots.
pub open spec fn spec_slot_bp_sum(d: Seq<u8>, n: int) -> int
    decreases n,
{
    if n <= 0 {
        0
    } else {
        spec_slot_bp_sum(d, n - 1) + dec_basis_points(d, n - 1)
    }
}

/// What every record written by this program satisfies: non-negative
/// timestamps, a schedule within the create-time ceilings, and shares that
/// sum to exactly the whole pool.  Distribution re-checks this before doing
/// any arithmetic and fails closed on bytes that break it.
pub open spec fn spec_stored_state_ok(d: Seq<u8>) -> bool {
    &&& 0 <= dec_start_time(d)
    &&& 0 <= dec_last_distribution_time(d)
    &&& 0 <= dec_schedule(d).cliff_period
    &&& dec_schedule(d).cliff_period < dec_schedule(d).vesting_period
    &&& dec_schedule(d).vesting_period <= MAX_VESTING_DURATION
    &&& dec_schedule(d).cliff_period <= MAX_CLIFF_DURATION
    &&& dec_schedule(d).tge_basis_points <= BASIS_POINTS_TOTAL
    &&& 1 <= dec_recipient_count(d) <= MAX_RECIPIENTS
    &&& spec_slot_bp_sum(d, dec_recipient_count(d) as int) == 10000
}

/// Slot `i` names a recipient: a non-zero wallet with a non-zero share.
pub open spec fn spec_slot_active(d: Seq<u8>, i: int) -> bool {
    dec_wallet(d, i) != spec_zero_key() && dec_basis_points(d, i) != 0
}

/// Slot `i`'s share of the whole pool.
pub open spec fn spec_recipient_total(d: Seq<u8>, i: int) -> int {
    dec_total_amount(d) * dec_basis_points(d, i) / 10000
}

/// What slot `i` can claim at `now`: the vested part of its share, less what
/// it already claimed; zero for empty slots, never negative.
pub open spec fn spec_slot_claimable(d: Seq<u8>, i: int, now: i64) -> int {
    if !spec_slot_active(d, i) {
        0
    } else {
        let vested = spec_vested_amount(
            spec_recipient_total(d, i) as u64,
            now,
            dec_start_time(d),
            dec_schedule(d),
        );
        let claimed = dec_claimed_amount(d, i);
        if vested > claimed {
            vested - claimed
        } else {
            0
        }
    }
}

/// Sum of the claimable amounts of the first `n` slots.
pub open spec fn spec_total_claimable(d: Seq<u8>, now: i64, n: int) -> int
    decreases n,
{
    if n <= 0 {
        0
    } else {
        spec_total_claimable(d, now, n - 1) + spec_slot_claimable(d, n - 1, now)
    }
}

/// The checks made against the supplied token account for slot `i`, made
/// only when the slot has something to claim: it must be the canonical token
/// account of the stored wallet and mint, decode as a token account, and be
/// owned by that wallet with that mint.
pub open spec fn spec_slot_err(d: Seq<u8>, ata: AccountView, i: int, now: i64) -> Option<
    TransitionError,
> {
    if spec_slot_claimable(d, i, now) <= 0 {
        None
    } else if ata.key@ != ata_of(dec_wallet(d, i), dec_mint(d)) {
        Some(TransitionError::Vesting(VestingError::InvalidRecipientATA))
    } else if token_account_of(ata.data@) is None {
        Some(TransitionError::InvalidAccountData)
    } else if (token_account_of(ata.data@)->0).1 != dec_wallet(d, i) {
        Some(TransitionError::Vesting(VestingError::InvalidRecipientATA))
    } else if (token_account_of(ata.data@)->0).0 != dec_mint(d) {
        Some(TransitionError::Vesting(VestingError::MintMismatch))
    } else {
        None
    }
}

/// First failure among the first `n` slots, scanning in order.
pub open spec fn spec_slots_err(d: Seq<u8>, atas: Seq<AccountView>, now: i64, n: int) -> Option<
    TransitionError,
>
    decreases n,
{
    if n <= 0 {
        None
    } else {
        let prev = spec_slots_err(d, atas, now, n - 1);
        if prev is Some {
            prev
        } else {
            spec_slot_err(d, atas[n - 1], n - 1, now)
        }
    }
}

proof fn lemma_slots_err_stable(d: Seq<u8>, atas: Seq<AccountView>, now: i64, n: int, m: int)
    requires
        0 <= n <= m,
        spec_slots_err(d, atas, now, n) is Some,
    ensures
        spec_slots_err(d, atas, now, m) == spec_slots_err(d, atas, now, n),
    decreases m - n,
{
    if m > n {
        lemma_slots_err_stable(d, atas, now, n, m - 1);
    }
}

/// The queued transfers for the first `n` slots: one per slot with a
/// positive claimable amount, to that slot's canonical token account.
pub open spec fn spec_transfers(d: Seq<u8>, now: i64, n: int) -> Seq<(Seq<u8>, u64)>
    decreases n,
{
    if n <= 0 {
        Seq::empty()
    } else {
        let prev = spec_transfers(d, now, n - 1);
        if spec_slot_claimable(d, n - 1, now) > 0 {
            prev.push(
                (
                    ata_of(dec_wallet(d, n - 1), dec_mint(d)),
                    spec_slot_claimable(d, n - 1, now) as u64,
                ),
            )
        } else {
            prev
        }
    }
}

/// The distribute transition's verdict, in the order the checks are made.
pub open spec fn spec_distribute_err(
    program_id: Seq<u8>,
    initializer: AccountView,
    vesting_pda: AccountView,
    vault_pda: AccountView,
    vault_authority: AccountView,
    atas: Seq<AccountView>,
    now: i64,
) -> Option<TransitionError> {
    let d = vesting_pda.data@;
    if !initializer.is_signer {
        Some(TransitionError::Vesting(VestingError::NotSigner))
    } else if vesting_pda.owner@ != program_id {
        Some(TransitionError::Vesting(VestingError::InvalidAccountOwner))
    } else if !is_token_program_id(vault_pda.owner@) {
        Some(TransitionError::Vesting(VestingError::InvalidAccountOwner))
    } else if d.len() != VESTING_ACCOUNT_LEN {
        Some(TransitionError::InvalidAccountData)
    } else if !dec_is_initialized(d) {
        Some(TransitionError::Vesting(VestingError::NotInitialized))
    } else if dec_initializer(d) != initializer.key@ {
        Some(TransitionError::Vesting(VestingError::NotInitializer))
    } else if dec_start_time(d) == 0 {
        Some(TransitionError::Vesting(VestingError::NotFunded))
    } else if !dec_is_finalized(d) {
        Some(TransitionError::Vesting(VestingError::NotFinalized))
    } else if !spec_stored_state_ok(d) {
        Some(TransitionError::InvalidAccountData)
    } else if dec_last_distribution_time(d) > 0 && now - dec_last_distribution_time(d)
        < DISTRIBUTION_COOLDOWN {
        Some(TransitionError::Vesting(VestingError::DistributionCooldown))
    } else if spec_vault_pda(program_id, vesting_pda.key@) is None {
        Some(TransitionError::Vesting(VestingError::InvalidPDA))
    } else if vault_pda.key@ != (spec_vault_pda(program_id, vesting_pda.key@)->0).0 {
        Some(TransitionError::Vesting(VestingError::InvalidPDA))
    } else if spec_authority_pda(program_id, vesting_pda.key@) is None {
        Some(TransitionError::Vesting(VestingError::InvalidAuthority))
    } else if vault_authority.key@ != (spec_authority_pda(program_id, vesting_pda.key@)->0).0 {
        Some(TransitionError::Vesting(VestingError::InvalidAuthority))
    } else if atas.len() != dec_recipient_count(d) {
        Some(TransitionError::Vesting(VestingError::InvalidATACount))
    } else if token_account_of(vault_pda.data@) is None {
        Some(TransitionError::InvalidAccountData)
    } else if (token_account_of(vault_pda.data@)->0).1 != (spec_authority_pda(
        program_id,
        vesting_pda.key@,
    )->0).0 {
        Some(TransitionError::Vesting(VestingError::InvalidTokenOwner))
    } else if (token_account_of(vault_pda.data@)->0).0 != dec_mint(d) {
        Some(TransitionError::Vesting(VestingError::MintMismatch))
    } else if spec_slots_err(d, atas, now, dec_recipient_count(d) as int) is Some {
        spec_slots_err(d, atas, now, dec_recipient_count(d) as int)
    } else if spec_total_claimable(d, now, dec_recipient_count(d) as int) == 0 {
        Some(TransitionError::Vesting(VestingError::NoClaimableAmount))
    } else {
        None
    }
}

/// How one stored slot looks after a successful distribution at `now`.
pub open spec fn spec_slot_updated(r: Recipient, d: Seq<u8>, i: int, now: i64) -> bool {
    if i < dec_recipient_count(d) {
        &&& r.wallet@ == dec_wallet(d, i)
        &&& r.basis_points == dec_basis_points(d, i)
        &&& if spec_slot_claimable(d, i, now) > 0 {
            r.claimed_amount == dec_claimed_amount(d, i) + spec_slot_claimable(d, i, now)
                && r.last_claim_time == now
        } else {
            r.claimed_amount == dec_claimed_amount(d, i) && r.last_claim_time
                == dec_last_claim_time(d, i)
        }
    } else {
        spec_recipient_default(r)
    }
}

/// What a successful distribution yields: the record with every positive
/// claim booked at `now` and the cooldown clock reset, plus one transfer per
/// paid slot and their positive sum.
pub open spec fn spec_distribute_ok(
    plan: DistributePlan,
    d: Seq<u8>,
    now: i64,
    program_id: Seq<u8>,
    record_key: Seq<u8>,
) -> bool {
    let count = dec_recipient_count(d) as int;
    &&& plan.record.wf()
    &&& plan.record.is_initialized == true
    &&& plan.record.initializer@ == dec_initializer(d)
    &&& plan.record.mint@ == dec_mint(d)
    &&& plan.record.vault@ == dec_vault(d)
    &&& plan.record.start_time == dec_start_time(d)
    &&& plan.record.total_amount == dec_total_amount(d)
    &&& plan.record.schedule == dec_schedule(d)
    &&& plan.record.recipient_count == dec_recipient_count(d)
    &&& plan.record.is_finalized == true
    &&& plan.record.last_distribution_time == now
    &&& plan.record.recipients@.len() == MAX_RECIPIENTS
    &&& forall|i: int|
        0 <= i < MAX_RECIPIENTS ==> spec_slot_updated(#[trigger] plan.record.recipients@[i], d, i, now)
    &&& plan.transfers@.len() == spec_transfers(d, now, count).len()
    &&& forall|j: int|
        0 <= j < plan.transfers@.len() ==> ((#[trigger] plan.transfers@[j]).to@,
        plan.transfers@[j].amount) == spec_transfers(d, now, count)[j]
    &&& plan.total_distributed == spec_total_claimable(d, now, count)
    &&& plan.total_distributed > 0
    &&& spec_authority_pda(program_id, record_key) is Some
    &&& plan.authority_bump == (spec_authority_pda(program_id, record_key)->0).1
}

/// Partial sums of stored shares grow with `n`.
proof fn lemma_slot_bp_sum_monotone(d: Seq<u8>, a: int, b: int)
    requires
        0 <= a <= b,
    ensures
        spec_slot_bp_sum(d, a) <= spec_slot_bp_sum(d, b),
    decreases b - a,
{
    if b > a {
        lemma_slot_bp_sum_monotone(d, a, b - 1);
    }
}

/// Each stored share is bounded by the total of all of them.
proof fn lemma_slot_bp_le_sum(d: Seq<u8>, i: int, n: int)
    requires
        0 <= i < n,
    ensures
        dec_basis_points(d, i) <= spec_slot_bp_sum(d, n),
{
    lemma_slot_bp_sum_monotone(d, 0, i);
    lemma_slot_bp_sum_monotone(d, i + 1, n);
}

/// Integer division distributes superadditively over addition.
proof fn lemma_div_superadd(a: int, b: int, d: int)
    requires
        0 < d,
        0 <= a,
        0 <= b,
    ensures
        a / d + b / d <= (a + b) / d,
{
    vstd::arithmetic::div_mod::lemma_fundamental_div_mod(a, d);
    vstd::arithmetic::div_mod::lemma_fundamental_div_mod(b, d);
    vstd::arithmetic::div_mod::lemma_mod_division_less_than_divisor(a, d);
    vstd::arithmetic::div_mod::lemma_mod_division_less_than_divisor(b, d);
    vstd::arithmetic::mul::lemma_mul_is_distributive_add(d, a / d, b / d);
    lemma_div_is_ordered(d * (a / d + b / d), a + b, d);
    lemma_div_multiples_vanish(a / d + b / d, d);
}

/// The claimable amounts of the first `n` slots sum to at most the
/// corresponding share of the pool.
proof fn lemma_total_claimable_le_share(d: Seq<u8>, now: i64, n: int)
    requires
        0 <= n,
        dec_schedule(d).tge_basis_points <= BASIS_POINTS_TOTAL,
        forall|i: int| 0 <= i < n ==> #[trigger] dec_basis_points(d, i) <= 10000,
    ensures
        0 <= spec_total_claimable(d, now, n) <= dec_total_amount(d) * spec_slot_bp_sum(d, n)
            / 10000,
    decreases n,
{
    let total = dec_total_amount(d) as int;
    if n > 0 {
        lemma_total_claimable_le_share(d, now, n - 1);
        let c = spec_slot_claimable(d, n - 1, now);
        let rt = spec_recipient_total(d, n - 1);
        lemma_mul_div_le(total, dec_basis_points(d, n - 1) as int, 10000);
        if spec_slot_active(d, n - 1) {
            lemma_vested_bounds(rt as u64, now, dec_start_time(d), dec_schedule(d));
        }
        assert(0 <= c <= rt);
        lemma_slot_bp_sum_monotone(d, 0, n - 1);
        vstd::arithmetic::mul::lemma_mul_nonnegative(total, spec_slot_bp_sum(d, n - 1));
        vstd::arithmetic::mul::lemma_mul_nonnegative(total, dec_basis_points(d, n - 1) as int);
        lemma_div_superadd(
            total * spec_slot_bp_sum(d, n - 1),
            total * dec_basis_points(d, n - 1),
            10000,
        );
        vstd::arithmetic::mul::lemma_mul_is_distributive_add(
            total,
            spec_slot_bp_sum(d, n - 1),
            dec_basis_points(d, n - 1) as int,
        );
    }
}

/// Under a well-formed stored record, the first `n` slots never claim more
/// than the pool in one round.
proof fn lemma_total_claimable_le_total(d: Seq<u8>, now: i64, n: int)
    requires
        spec_stored_state_ok(d),
        0 <= n <= dec_recipient_count(d),
    ensures
        0 <= spec_total_claimable(d, now, n) <= dec_total_amount(d),
{
    let total = dec_total_amount(d) as int;
    let count = dec_recipient_count(d) as int;
    assert forall|i: int| 0 <= i < n implies #[trigger] dec_basis_points(d, i) <= 10000 by {
        lemma_slot_bp_le_sum(d, i, count);
    }
    lemma_total_claimable_le_share(d, now, n);
    lemma_slot_bp_sum_monotone(d, n, count);
    lemma_slot_bp_sum_monotone(d, 0, n);
    lemma_mul_inequality(spec_slot_bp_sum(d, n), 10000, total);
    vstd::arithmetic::mul::lemma_mul_is_commutative(spec_slot_bp_sum(d, n), total);
    vstd::arithmetic::mul::lemma_mul_is_commutative(10000, total);
    lemma_div_is_ordered(total * spec_slot_bp_sum(d, n), total * 10000, 10000);
    vstd::arithmetic::mul::lemma_mul_is_commutative(total, 10000);
    lemma_div_multiples_vanish(total, 10000);
}

/// A recipient that has never been over-paid stays within its share: what it
/// has claimed plus what it can still claim in this round never exceeds its
/// slice of the pool.
pub proof fn lemma_claims_never_exceed_share(d: Seq<u8>, i: int, now: i64)
    requires
        dec_schedule(d).tge_basis_points <= BASIS_POINTS_TOTAL,
        dec_basis_points(d, i) <= BASIS_POINTS_TOTAL,
        dec_claimed_amount(d, i) <= spec_recipient_total(d, i),
    ensures
        0 <= spec_slot_claimable(d, i, now),
        dec_claimed_amount(d, i) + spec_slot_claimable(d, i, now) <= spec_recipient_total(d, i),
{
    lemma_mul_div_le(
        dec_total_amount(d) as int,
        dec_basis_points(d, i) as int,
        10000,
    );
    lemma_vested_bounds(
        spec_recipient_total(d, i) as u64,
        now,
        dec_start_time(d),
        dec_schedule(d),
    );
}

/// Once the vesting period has fully elapsed, a distribution settles an
/// active recipient exactly: claimed plus claimable equals its whole share.
pub proof fn lemma_claims_converge(d: Seq<u8>, i: int, now: i64)
    requires
        dec_schedule(d).tge_basis_points <= BASIS_POINTS_TOTAL,
        dec_basis_points(d, i) <= BASIS_POINTS_TOTAL,
        dec_claimed_amount(d, i) <= spec_recipient_total(d, i),
        spec_slot_active(d, i),
        0 <= dec_start_time(d) <= now,
        now - dec_start_time(d) >= dec_schedule(d).vesting_period,
        dec_schedule(d).cliff_period <= dec_schedule(d).vesting_period,
    ensures
        dec_claimed_amount(d, i) + spec_slot_claimable(d, i, now) == spec_recipient_total(d, i),
{
    lemma_mul_div_le(
        dec_total_amount(d) as int,
        dec_basis_points(d, i) as int,
        10000,
    );
    lemma_vested_bounds(
        spec_recipient_total(d, i) as u64,
        now,
        dec_start_time(d),
        dec_schedule(d),
    );
}

/// The distribute transition.  Only the stored creator may trigger it, only
/// on a funded, finalized record, at most once per cooldown window; every
/// supplied recipient token account is re-validated against its derivation;
/// a round in which nothing is claimable fails instead of spending the
/// cooldown.  On success the plan carries one transfer per paid slot and the
/// updated record.
#[verifier::loop_isolation(false)]
#[verifier::rlimit(30)]
pub fn process_distribute_to_all(
    program_id: &Vec<u8>,
    initializer: &AccountView,
    vesting_pda: &AccountView,
    vault_pda: &AccountView,
    vault_authority: &AccountView,
    recipient_atas: &Vec<AccountView>,
    now: i64,
) -> (r: Result<DistributePlan, TransitionError>)
    requires
        program_id@.len() == KEY_LEN,
        initializer.wf(),
        vesting_pda.wf(),
        vault_pda.wf(),
        vault_authority.wf(),
        forall|i: int| 0 <= i < recipient_atas@.len() ==> (#[trigger] recipient_atas@[i]).wf(),
        0 <= now,
    ensures
        r is Err <==> spec_distribute_err(
            program_id@,
            *initializer,
            *vesting_pda,
            *vault_pda,
            *vault_authority,
            recipient_atas@,
            now,
        ) is Some,
        r matches Err(e) ==> Some(e) == spec_distribute_err(
            program_id@,
            *initializer,
            *vesting_pda,
            *vault_pda,
            *vault_authority,
            recipient_atas@,
            now,
        ),
        r matches Ok(plan) ==> spec_distribute_ok(
            plan,
            vesting_pda.data@,
            now,
            program_id@,
            vesting_pda.key@,
        ),
{
    let ghost d = vesting_pda.data@;
    if !initializer.is_signer {
        return Err(TransitionError::Vesting(VestingError::NotSigner));
    }
    if !key_eq(&vesting_pda.owner, program_id) {
        return Err(TransitionError::Vesting(VestingError::InvalidAccountOwner));
    }
    if !is_token_program_key(&vault_pda.owner) {
        return Err(TransitionError::Vesting(VestingError::InvalidAccountOwner));
    }
    let mut record: VestingAccount = match VestingAccount::unpack_from_slice(
        vesting_pda.data.as_slice(),
    ) {
        None => {
            return Err(TransitionError::InvalidAccountData);
        },
        Some(v) => v,
    };
    if !record.is_initialized {
        return Err(TransitionError::Vesting(VestingError::NotInitialized));
    }
    if !key_eq(&record.initializer, &initializer.key) {
        return Err(TransitionError::Vesting(VestingError::NotInitializer));
    }
    if record.start_time == 0 {
        return Err(TransitionError::Vesting(VestingError::NotFunded));
    }
    if !record.is_finalized {
        return Err(TransitionError::Vesting(VestingError::NotFinalized));
    }
    if record.start_time < 0 || record.last_distribution_time < 0 || record.schedule.cliff_period
        < 0 || record.schedule.cliff_period >= record.schedule.vesting_period
        || record.schedule.vesting_period > MAX_VESTING_DURATION || record.schedule.cliff_period
        > MAX_CLIFF_DURATION || record.schedule.tge_basis_points > BASIS_POINTS_TOTAL
        || record.recipient_count == 0 || record.recipient_count as usize > MAX_RECIPIENTS {
        return Err(TransitionError::InvalidAccountData);
    }
    let count: usize = record.recipient_count as usize;
    let mut bp_sum: u32 = 0;
    let mut i: usize = 0;
    while i < count
        invariant
            i <= count,
            bp_sum == spec_slot_bp_sum(d, i as int),
            bp_sum <= 65535 * i,
        decreases count - i,
    {
        bp_sum = bp_sum + record.recipients[i].basis_points as u32;
        i = i + 1;
    }
    if bp_sum != 10000 {
        return Err(TransitionError::InvalidAccountData);
    }
    assert(spec_stored_state_ok(d));
    if record.last_distribution_time > 0 && now - record.last_distribution_time
        < DISTRIBUTION_COOLDOWN {
        return Err(TransitionError::Vesting(VestingError::DistributionCooldown));
    }
    let vault_derived: (Vec<u8>, u8) = match derive_vault_pda(program_id, &vesting_pda.key) {
        None => {
            return Err(TransitionError::Vesting(VestingError::InvalidPDA));
        },
        Some(p) => p,
    };
    if !key_eq(&vault_pda.key, &vault_derived.0) {
        return Err(TransitionError::Vesting(VestingError::InvalidPDA));
    }
    let authority_derived: (Vec<u8>, u8) = match derive_authority_pda(
        program_id,
        &vesting_pda.key,
    ) {
        None => {
            return Err(TransitionError::Vesting(VestingError::InvalidAuthority));
        },
        Some(p) => p,
    };
    if !key_eq(&vault_authority.key, &authority_derived.0) {
        return Err(TransitionError::Vesting(VestingError::InvalidAuthority));
    }
    if recipient_atas.len() != count {
        return Err(TransitionError::Vesting(VestingError::InvalidATACount));
    }
    let vault_acct: TokenAccountView = match unpack_token_account(vault_pda.data.as_slice()) {
        None => {
            return Err(TransitionError::InvalidAccountData);
        },
        Some(v) => v,
    };
    if !key_eq(&vault_acct.owner, &authority_derived.0) {
        return Err(TransitionError::Vesting(VestingError::InvalidTokenOwner));
    }
    if !key_eq(&vault_acct.mint, &record.mint) {
        return Err(TransitionError::Vesting(VestingError::MintMismatch));
    }

    let mut transfers: Vec<TokenTransfer> = Vec::new();
    let mut new_recipients: Vec<Recipient> = Vec::new();
    let mut total_distributed: u64 = 0;
    let mut j: usize = 0;
    while j < count
        invariant
            j <= count,
            new_recipients@.len() == j,
            forall|t: int|
                0 <= t < j ==> spec_slot_updated(#[trigger] new_recipients@[t], d, t, now)
                    && new_recipients@[t].wf(),
            transfers@.len() == spec_transfers(d, now, j as int).len(),
            forall|t: int|
                0 <= t < transfers@.len() ==> ((#[trigger] transfers@[t]).to@,
                transfers@[t].amount) == spec_transfers(d, now, j as int)[t],
            total_distributed == spec_total_claimable(d, now, j as int),
            spec_slots_err(d, recipient_atas@, now, j as int) is None,
        decreases count - j,
    {
        let slot = &record.recipients[j];
        let active: bool = !is_zero_key(&slot.wallet) && slot.basis_points != 0;
        if !active {
            new_recipients.push(
                Recipient {
                    wallet: copy_bytes(&slot.wallet),
                    basis_points: slot.basis_points,
                    claimed_amount: slot.claimed_amount,
                    last_claim_time: slot.last_claim_time,
                },
            );
            j = j + 1;
        } else {
        proof {
            lemma_slot_bp_le_sum(d, j as int, count as int);
            lemma_mul_upper_bound(
                record.total_amount as int,
                u64::MAX as int,
                slot.basis_points as int,
                10000,
            );
            lemma_mul_div_le(
                record.total_amount as int,
                slot.basis_points as int,
                10000,
            );
        }
        let rt_wide: u128 = record.total_amount as u128 * slot.basis_points as u128 / 10000;
        let recipient_total: u64 = rt_wide as u64;
        let vested: u64 = calculate_vested_amount(
            recipient_total,
            now,
            record.start_time,
            &record.schedule,
        );
        let claimable: u64 = if vested > slot.claimed_amount {
            vested - slot.claimed_amount
        } else {
            0
        };
        if claimable == 0 {
            new_recipients.push(
                Recipient {
                    wallet: copy_bytes(&slot.wallet),
                    basis_points: slot.basis_points,
                    claimed_amount: slot.claimed_amount,
                    last_claim_time: slot.last_claim_time,
                },
            );
            j = j + 1;
        } else {
        let expected_ata: Vec<u8> = derive_ata(&slot.wallet, &record.mint);
        let ata = &recipient_atas[j];
        if !key_eq(&ata.key, &expected_ata) {
            proof {
                lemma_slots_err_stable(d, recipient_atas@, now, j + 1, count as int);
            }
            return Err(TransitionError::Vesting(VestingError::InvalidRecipientATA));
        }
        let ata_acct: TokenAccountView = match unpack_token_account(ata.data.as_slice()) {
            None => {
                proof {
                    lemma_slots_err_stable(d, recipient_atas@, now, j + 1, count as int);
                }
                return Err(TransitionError::InvalidAccountData);
            },
            Some(v) => v,
        };
        if !key_eq(&ata_acct.owner, &slot.wallet) {
            proof {
                lemma_slots_err_stable(d, recipient_atas@, now, j + 1, count as int);
            }
            return Err(TransitionError::Vesting(VestingError::InvalidRecipientATA));
        }
        if !key_eq(&ata_acct.mint, &record.mint) {
            proof {
                lemma_slots_err_stable(d, recipient_atas@, now, j + 1, count as int);
            }
            return Err(TransitionError::Vesting(VestingError::MintMismatch));
        }
        proof {
            lemma_total_claimable_le_total(d, now, j + 1);
        }
        transfers.push(TokenTransfer { to: expected_ata, amount: claimable });
        new_recipients.push(
            Recipient {
                wallet: copy_bytes(&slot.wallet),
                basis_points: slot.basis_points,
                claimed_amount: slot.claimed_amount + claimable,
                last_claim_time: now,
            },
        );
        total_distributed = total_distributed + claimable;
        j = j + 1;
        }
        }
    }
    while new_recipients.len() < MAX_RECIPIENTS
        invariant
            count <= new_recipients@.len() <= MAX_RECIPIENTS,
            forall|t: int|
                0 <= t < count ==> spec_slot_updated(#[trigger] new_recipients@[t], d, t, now)
                    && new_recipients@[t].wf(),
            forall|t: int|
                count <= t < new_recipients@.len() ==> spec_recipient_default(
                    #[trigger] new_recipients@[t],
                ) && new_recipients@[t].wf(),
        decreases MAX_RECIPIENTS - new_recipients@.len(),
    {
        new_recipients.push(Recipient::default());
    }
    if total_distributed == 0 {
        return Err(TransitionError::Vesting(VestingError::NoClaimableAmount));
    }
    record.recipients = new_recipients;
    record.last_distribution_time = now;
    Ok(
        DistributePlan {
            record,
            transfers,
            authority_bump: authority_derived.1,
            total_distributed,
        },
    )
}

/// The cooldown throttles: while fewer than `DISTRIBUTION_COOLDOWN` seconds
/// have passed since a recorded distribution, no distribute call can
/// succeed, whoever calls and whatever accounts are supplied.
pub proof fn lemma_cooldown_throttles(
    program_id: Seq<u8>,
    initializer: AccountView,
    vesting_pda: AccountView,
    vault_pda: AccountView,
    vault_authority: AccountView,
    atas: Seq<AccountView>,
    now: i64,
)
    requires
        dec_last_distribution_time(vesting_pda.data@) > 0,
        now - dec_last_distribution_time(vesting_pda.data@) < DISTRIBUTION_COOLDOWN,
    ensures
        spec_distribute_err(
            program_id,
            initializer,
            vesting_pda,
            vault_pda,
            vault_authority,
            atas,
            now,
        ) is Some,
{
}

proof fn lemma_slots_err_not_cooldown(d: Seq<u8>, atas: Seq<AccountView>, now: i64, n: int)
    ensures
        spec_slots_err(d, atas, now, n) != Some(
            TransitionError::Vesting(VestingError::DistributionCooldown),
        ),
    decreases n,
{
    if n > 0 {
        lemma_slots_err_not_cooldown(d, atas, now, n - 1);
    }
}

/// The cooldown ends exactly at the boundary: once `DISTRIBUTION_COOLDOWN`
/// seconds have passed, a distribute call is never rejected for cooling
/// down.
pub proof fn lemma_cooldown_boundary(
    program_id: Seq<u8>,
    initializer: AccountView,
    vesting_pda: AccountView,
    vault_pda: AccountView,
    vault_authority: AccountView,
    atas: Seq<AccountView>,
    now: i64,
)
    requires
        now - dec_last_distribution_time(vesting_pda.data@) >= DISTRIBUTION_COOLDOWN,
    ensures
        spec_distribute_err(
            program_id,
            initializer,
            vesting_pda,
            vault_pda,
            vault_authority,
            atas,
            now,
        ) != Some(TransitionError::Vesting(VestingError::DistributionCooldown)),
{
    lemma_slots_err_not_cooldown(
        vesting_pda.data@,
        atas,
        now,
        dec_recipient_count(vesting_pda.data@) as int,
    );
}

/// Only the stored creator can distribute: whenever the caller's key
/// differs from the creator recorded in the stored bytes, the distribute
/// transition rejects, and no transfer is planned.
pub proof fn lemma_distribute_only_creator(
    program_id: Seq<u8>,
    initializer: AccountView,
    vesting_pda: AccountView,
    vault_pda: AccountView,
    vault_authority: AccountView,
    atas: Seq<AccountView>,
    now: i64,
)
    requires
        initializer.key@ != dec_initializer(vesting_pda.data@),
    ensures
        spec_distribute_err(
            program_id,
            initializer,
            vesting_pda,
            vault_pda,
            vault_authority,
            atas,
            now,
        ) is Some,
{
}

/// The one-shot fund, end to end: store the record a successful fund
/// produced, and no later fund call on those stored bytes can succeed.
pub proof fn lemma_fund_then_fund_fails(
    plan: FundPlan,
    d: Seq<u8>,
    now: i64,
    amount: u64,
    program_id: Seq<u8>,
    funder: AccountView,
    source_token: AccountView,
    vault_pda: AccountView,
    vesting_pda: AccountView,
    amount2: u64,
)
    requires
        spec_fund_ok(plan, d, now, amount),
        vesting_pda.data@ == spec_pack(plan.record),
    ensures
        spec_fund_err(program_id, funder, source_token, vault_pda, vesting_pda, amount2) is Some,
{
    assert(spec_canonical(plan.record));
    lemma_pack_roundtrip(plan.record);
    assert(dec_is_finalized(vesting_pda.data@));
    lemma_fund_at_most_once(
        program_id,
        funder,
        source_token,
        vault_pda,
        vesting_pda,
        amount2,
    );
}

} // verus!
