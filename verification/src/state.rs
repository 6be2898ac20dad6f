//! The vesting record: its in-memory form, its well-formedness, and its
//! fixed-length little-endian wire layout.

use vstd::prelude::*;
use vstd::bytes::*;
use crate::wire::{
    i64_from_le_bytes, i64_to_le_bytes, lemma_i64_le_bytes_roundtrip, spec_i64_from_le_bytes,
    spec_i64_to_le_bytes,
};

verus! {

/// Capacity of the recipient table.
pub const MAX_RECIPIENTS: usize = 10;

/// Shares are expressed in basis points; the whole pool is 10000.
pub const BASIS_POINTS_TOTAL: u16 = 10000;

/// Hard ceiling on the total vesting duration: four years, in seconds.
pub const MAX_VESTING_DURATION: i64 = 4 * 365 * 24 * 60 * 60;

/// Hard ceiling on the cliff duration: one year, in seconds.
pub const MAX_CLIFF_DURATION: i64 = 365 * 24 * 60 * 60;

/// Minimum number of seconds between two successful distributions.
pub const DISTRIBUTION_COOLDOWN: i64 = 60;

/// Length in bytes of an address on the host ledger.
pub const KEY_LEN: usize = 32;

/// Packed length of one recipient slot: wallet, basis points, claimed
/// amount, last claim time.
pub const RECIPIENT_LEN: usize = 32 + 2 + 8 + 8;

/// Packed length of the whole record: the fixed header followed by
/// `MAX_RECIPIENTS` recipient slots.
pub const VESTING_ACCOUNT_LEN: usize = 1 + 32 + 32 + 32 + 8 + 8 + 8 + 8 + 2 + 1 + 1 + 8
    + MAX_RECIPIENTS * RECIPIENT_LEN;

/// The all-zero address, used as the "empty slot" sentinel.
pub open spec fn spec_zero_key() -> Seq<u8> {
    Seq::new(KEY_LEN as nat, |i: int| 0u8)
}

/// Builds the all-zero address.
pub fn zero_key() -> (k: Vec<u8>)
    ensures
        k@ == spec_zero_key(),
{
    let mut k: Vec<u8> = Vec::new();
    let mut i: usize = 0;
    while i < KEY_LEN
        invariant
            i <= KEY_LEN,
            k@.len() == i,
            forall|j: int| 0 <= j < i ==> k@[j] == 0u8,
        decreases KEY_LEN - i,
    {
        k.push(0u8);
        i = i + 1;
    }
    proof {
        assert(k@ =~= spec_zero_key());
    }
    k
}

/// True exactly when `k` is the all-zero address.
pub fn is_zero_key(k: &Vec<u8>) -> (r: bool)
    ensures
        r == (k@ == spec_zero_key()),
{
    if k.len() != KEY_LEN {
        return false;
    }
    let mut i: usize = 0;
    while i < KEY_LEN
        invariant
            i <= KEY_LEN,
            k@.len() == KEY_LEN,
            forall|j: int| 0 <= j < i ==> k@[j] == 0u8,
        decreases KEY_LEN - i,
    {
        if k[i] != 0u8 {
            return false;
        }
        i = i + 1;
    }
    proof {
        assert(k@ =~= spec_zero_key());
    }
    true
}

/// Copies `src[from..to]` into a fresh vector.
pub fn bytes_of(src: &[u8], from: usize, to: usize) -> (v: Vec<u8>)
    requires
        from <= to <= src@.len(),
    ensures
        v@ == src@.subrange(from as int, to as int),
{
    let mut v: Vec<u8> = Vec::new();
    let mut i: usize = from;
    while i < to
        invariant
            from <= i <= to <= src@.len(),
            v@.len() == i - from,
            forall|j: int| 0 <= j < v@.len() ==> v@[j] == src@[from + j],
        decreases to - i,
    {
        v.push(src[i]);
        i = i + 1;
    }
    proof {
        assert(v@ =~= src@.subrange(from as int, to as int));
    }
    v
}

/// One slot of the recipient table.
pub struct Recipient {
    pub wallet: Vec<u8>,
    pub basis_points: u16,
    pub claimed_amount: u64,
    pub last_claim_time: i64,
}

/// An unused slot: zero wallet, zero share, nothing claimed.
pub open spec fn spec_recipient_default(r: Recipient) -> bool {
    &&& r.wallet@ == spec_zero_key()
    &&& r.basis_points == 0
    &&& r.claimed_amount == 0
    &&& r.last_claim_time == 0
}

impl Recipient {
    pub open spec fn wf(&self) -> bool {
        self.wallet@.len() == KEY_LEN
    }
}

impl Default for Recipient {
    fn default() -> (r: Self)
        ensures
            spec_recipient_default(r),
            r.wf(),
    {
        Recipient { wallet: zero_key(), basis_points: 0, claimed_amount: 0, last_claim_time: 0 }
    }
}

/// The immutable release schedule.
#[derive(Clone, Copy, Debug, PartialEq, Eq, Structural)]
pub struct VestingSchedule {
    /// Cliff duration in seconds from `start_time`.
    pub cliff_period: i64,
    /// Total vesting duration in seconds from `start_time`; exceeds the cliff.
    pub vesting_period: i64,
    /// Share released at funding time, in basis points.
    pub tge_basis_points: u16,
}

impl Default for VestingSchedule {
    fn default() -> (s: Self)
        ensures
            s.cliff_period == 0,
            s.vesting_period == 0,
            s.tge_basis_points == 0,
    {
        VestingSchedule { cliff_period: 0, vesting_period: 0, tge_basis_points: 0 }
    }
}

/// The ledger-resident vesting record.
pub struct VestingAccount {
    pub is_initialized: bool,
    /// The identity that created the record; only it may trigger distribution.
    pub initializer: Vec<u8>,
    pub mint: Vec<u8>,
    pub vault: Vec<u8>,
    /// Zero until funded; set to the funding time by the fund transition.
    pub start_time: i64,
    /// Zero until funded; the size of the locked pool.
    pub total_amount: u64,
    pub schedule: VestingSchedule,
    pub recipients: Vec<Recipient>,
    pub recipient_count: u8,
    /// True once funded; blocks any further configuration change.
    pub is_finalized: bool,
    /// Zero until the first distribution; enforces the cooldown.
    pub last_distribution_time: i64,
}

impl VestingAccount {
    /// Whether the record has been populated by the create transition.
    pub fn is_initialized(&self) -> (r: bool)
        ensures
            r == self.is_initialized,
    {
        self.is_initialized
    }

    /// Structural well-formedness: every address is 32 bytes and the
    /// recipient table has its full fixed capacity.
    pub open spec fn wf(&self) -> bool {
        &&& self.initializer@.len() == KEY_LEN
        &&& self.mint@.len() == KEY_LEN
        &&& self.vault@.len() == KEY_LEN
        &&& self.recipients@.len() == MAX_RECIPIENTS
        &&& forall|i: int|
            0 <= i < MAX_RECIPIENTS ==> (#[trigger] self.recipients@[i]).wf()
    }
}

// ---------------------------------------------------------------------------
// Wire layout.
//
// Header: is_initialized:1, initializer:32, mint:32, vault:32, start_time:8,
// total_amount:8, cliff_period:8, vesting_period:8, tge_basis_points:2,
// recipient_count:1, is_finalized:1, last_distribution_time:8; then
// MAX_RECIPIENTS slots of wallet:32, basis_points:2, claimed_amount:8,
// last_claim_time:8.  All integers little-endian.
// ---------------------------------------------------------------------------

pub open spec fn spec_bool_byte(b: bool) -> u8 {
    if b {
        1u8
    } else {
        0u8
    }
}

pub open spec fn spec_pack_recipient(r: Recipient) -> Seq<u8> {
    r.wallet@ + spec_u16_to_le_bytes(r.basis_points) + spec_u64_to_le_bytes(r.claimed_amount)
        + spec_i64_to_le_bytes(r.last_claim_time)
}

pub open spec fn spec_pack_recipients(rs: Seq<Recipient>, n: int) -> Seq<u8>
    decreases n,
{
    if n <= 0 {
        Seq::empty()
    } else {
        spec_pack_recipients(rs, n - 1) + spec_pack_recipient(rs[n - 1])
    }
}

pub open spec fn spec_pack_header(v: VestingAccount) -> Seq<u8> {
    seq![spec_bool_byte(v.is_initialized)] + v.initializer@ + v.mint@ + v.vault@
        + spec_i64_to_le_bytes(v.start_time) + spec_u64_to_le_bytes(v.total_amount)
        + spec_i64_to_le_bytes(v.schedule.cliff_period)
        + spec_i64_to_le_bytes(v.schedule.vesting_period)
        + spec_u16_to_le_bytes(v.schedule.tge_basis_points) + seq![v.recipient_count]
        + seq![spec_bool_byte(v.is_finalized)] + spec_i64_to_le_bytes(v.last_distribution_time)
}

pub open spec fn spec_pack(v: VestingAccount) -> Seq<u8> {
    spec_pack_header(v) + spec_pack_recipients(v.recipients@, MAX_RECIPIENTS as int)
}

// Decoded view of a packed record, field by field.

pub open spec fn dec_is_initialized(s: Seq<u8>) -> bool {
    s[0] != 0
}

pub open spec fn dec_initializer(s: Seq<u8>) -> Seq<u8> {
    s.subrange(1, 33)
}

pub open spec fn dec_mint(s: Seq<u8>) -> Seq<u8> {
    s.subrange(33, 65)
}

pub open spec fn dec_vault(s: Seq<u8>) -> Seq<u8> {
    s.subrange(65, 97)
}

pub open spec fn dec_start_time(s: Seq<u8>) -> i64 {
    spec_i64_from_le_bytes(s.subrange(97, 105))
}

pub open spec fn dec_total_amount(s: Seq<u8>) -> u64 {
    spec_u64_from_le_bytes(s.subrange(105, 113))
}

pub open spec fn dec_schedule(s: Seq<u8>) -> VestingSchedule {
    VestingSchedule {
        cliff_period: spec_i64_from_le_bytes(s.subrange(113, 121)),
        vesting_period: spec_i64_from_le_bytes(s.subrange(121, 129)),
        tge_basis_points: spec_u16_from_le_bytes(s.subrange(129, 131)),
    }
}

pub open spec fn dec_recipient_count(s: Seq<u8>) -> u8 {
    s[131]
}

pub open spec fn dec_is_finalized(s: Seq<u8>) -> bool {
    s[132] != 0
}

pub open spec fn dec_last_distribution_time(s: Seq<u8>) -> i64 {
    spec_i64_from_le_bytes(s.subrange(133, 141))
}

/// Byte offset of recipient slot `i`: the 141-byte header, then 50 bytes a
/// slot.
pub open spec fn slot_off(i: int) -> int {
    141 + 50 * i
}

pub open spec fn dec_wallet(s: Seq<u8>, i: int) -> Seq<u8> {
    s.subrange(slot_off(i), slot_off(i) + 32)
}

pub open spec fn dec_basis_points(s: Seq<u8>, i: int) -> u16 {
    spec_u16_from_le_bytes(s.subrange(slot_off(i) + 32, slot_off(i) + 34))
}

pub open spec fn dec_claimed_amount(s: Seq<u8>, i: int) -> u64 {
    spec_u64_from_le_bytes(s.subrange(slot_off(i) + 34, slot_off(i) + 42))
}

pub open spec fn dec_last_claim_time(s: Seq<u8>, i: int) -> i64 {
    spec_i64_from_le_bytes(s.subrange(slot_off(i) + 42, slot_off(i) + 50))
}

/// The record `v` is exactly what the bytes `s` describe.  Slots at or
/// beyond the declared count decode as the empty slot, whatever the bytes
/// there hold.
pub open spec fn spec_unpack_ok(v: VestingAccount, s: Seq<u8>) -> bool {
    &&& v.is_initialized == dec_is_initialized(s)
    &&& v.initializer@ == dec_initializer(s)
    &&& v.mint@ == dec_mint(s)
    &&& v.vault@ == dec_vault(s)
    &&& v.start_time == dec_start_time(s)
    &&& v.total_amount == dec_total_amount(s)
    &&& v.schedule == dec_schedule(s)
    &&& v.recipient_count == dec_recipient_count(s)
    &&& v.is_finalized == dec_is_finalized(s)
    &&& v.last_distribution_time == dec_last_distribution_time(s)
    &&& v.recipients@.len() == MAX_RECIPIENTS
    &&& forall|i: int|
        0 <= i < MAX_RECIPIENTS ==> spec_slot_decoded(
            #[trigger] v.recipients@[i],
            s,
            i,
            dec_recipient_count(s),
        )
}

pub open spec fn spec_slot_decoded(r: Recipient, s: Seq<u8>, i: int, count: u8) -> bool {
    if i < count {
        &&& r.wallet@ == dec_wallet(s, i)
        &&& r.basis_points == dec_basis_points(s, i)
        &&& r.claimed_amount == dec_claimed_amount(s, i)
        &&& r.last_claim_time == dec_last_claim_time(s, i)
    } else {
        spec_recipient_default(r)
    }
}

impl VestingAccount {
    /// Decodes a packed record.  Succeeds exactly on inputs of the fixed
    /// packed length.
    #[verifier::loop_isolation(false)]
    pub fn unpack_from_slice(src: &[u8]) -> (r: Option<VestingAccount>)
        ensures
            r is Some <==> src@.len() == VESTING_ACCOUNT_LEN,
            r matches Some(v) ==> v.wf() && spec_unpack_ok(v, src@),
    {
        if src.len() != VESTING_ACCOUNT_LEN {
            return None;
        }
        let is_initialized: bool = src[0] != 0;
        let initializer: Vec<u8> = bytes_of(src, 1, 33);
        let mint: Vec<u8> = bytes_of(src, 33, 65);
        let vault: Vec<u8> = bytes_of(src, 65, 97);
        let start_time: i64 = i64_from_le_bytes(&src[97..105]);
        let total_amount: u64 = u64_from_le_bytes(&src[105..113]);
        let cliff_period: i64 = i64_from_le_bytes(&src[113..121]);
        let vesting_period: i64 = i64_from_le_bytes(&src[121..129]);
        let tge_basis_points: u16 = u16_from_le_bytes(&src[129..131]);
        let recipient_count: u8 = src[131];
        let is_finalized: bool = src[132] != 0;
        let last_distribution_time: i64 = i64_from_le_bytes(&src[133..141]);

        let mut recipients: Vec<Recipient> = Vec::new();
        let mut i: usize = 0;
        while i < MAX_RECIPIENTS
            invariant
                i <= MAX_RECIPIENTS,
                src@.len() == VESTING_ACCOUNT_LEN,
                recipients@.len() == i,
                recipient_count == dec_recipient_count(src@),
                forall|j: int|
                    0 <= j < i ==> (#[trigger] recipients@[j]).wf() && spec_slot_decoded(
                        recipients@[j],
                        src@,
                        j,
                        dec_recipient_count(src@),
                    ),
            decreases MAX_RECIPIENTS - i,
        {
            let off: usize = 141 + RECIPIENT_LEN * i;
            if i < recipient_count as usize {
                let r = Recipient {
                    wallet: bytes_of(src, off, off + 32),
                    basis_points: u16_from_le_bytes(&src[off + 32..off + 34]),
                    claimed_amount: u64_from_le_bytes(&src[off + 34..off + 42]),
                    last_claim_time: i64_from_le_bytes(&src[off + 42..off + 50]),
                };
                recipients.push(r);
            } else {
                recipients.push(Recipient::default());
            }
            i = i + 1;
        }

        Some(
            VestingAccount {
                is_initialized,
                initializer,
                mint,
                vault,
                start_time,
                total_amount,
                schedule: VestingSchedule { cliff_period, vesting_period, tge_basis_points },
                recipients,
                recipient_count,
                is_finalized,
                last_distribution_time,
            },
        )
    }

    /// Encodes the record into its fixed-length wire form.
    #[verifier::loop_isolation(false)]
    pub fn pack(&self) -> (out: Vec<u8>)
        requires
            self.wf(),
        ensures
            out@ == spec_pack(*self),
            out@.len() == VESTING_ACCOUNT_LEN,
    {
        let mut out: Vec<u8> = Vec::new();
        out.push(if self.is_initialized {
            1u8
        } else {
            0u8
        });
        out.extend_from_slice(self.initializer.as_slice());
        out.extend_from_slice(self.mint.as_slice());
        out.extend_from_slice(self.vault.as_slice());
        let mut tmp: Vec<u8> = i64_to_le_bytes(self.start_time);
        out.append(&mut tmp);
        let mut tmp: Vec<u8> = u64_to_le_bytes(self.total_amount);
        out.append(&mut tmp);
        let mut tmp: Vec<u8> = i64_to_le_bytes(self.schedule.cliff_period);
        out.append(&mut tmp);
        let mut tmp: Vec<u8> = i64_to_le_bytes(self.schedule.vesting_period);
        out.append(&mut tmp);
        let mut tmp: Vec<u8> = u16_to_le_bytes(self.schedule.tge_basis_points);
        out.append(&mut tmp);
        out.push(self.recipient_count);
        out.push(if self.is_finalized {
            1u8
        } else {
            0u8
        });
        let mut tmp: Vec<u8> = i64_to_le_bytes(self.last_distribution_time);
        out.append(&mut tmp);
        proof {
            assert(out@ =~= spec_pack_header(*self));
        }

        let mut i: usize = 0;
        while i < MAX_RECIPIENTS
            invariant
                i <= MAX_RECIPIENTS,
                self.wf(),
                out@ == spec_pack_header(*self) + spec_pack_recipients(
                    self.recipients@,
                    i as int,
                ),
                out@.len() == 141 + 50 * i,
            decreases MAX_RECIPIENTS - i,
        {
            let r = &self.recipients[i];
            proof {
                assert(self.recipients@[i as int].wf());
            }
            out.extend_from_slice(r.wallet.as_slice());
            let mut tmp: Vec<u8> = u16_to_le_bytes(r.basis_points);
            out.append(&mut tmp);
            let mut tmp: Vec<u8> = u64_to_le_bytes(r.claimed_amount);
            out.append(&mut tmp);
            let mut tmp: Vec<u8> = i64_to_le_bytes(r.last_claim_time);
            out.append(&mut tmp);
            proof {
                assert(out@ =~= spec_pack_header(*self) + spec_pack_recipients(
                    self.recipients@,
                    i + 1,
                ));
            }
            i = i + 1;
        }
        out
    }
}

/// A record as this program stores it: well-formed, with every slot at or
/// beyond the declared count left empty.
pub open spec fn spec_canonical(v: VestingAccount) -> bool {
    &&& v.wf()
    &&& forall|i: int|
        v.recipient_count <= i < MAX_RECIPIENTS ==> spec_recipient_default(
            #[trigger] v.recipients@[i],
        )
}

proof fn lemma_pack_recipient_len(r: Recipient)
    requires
        r.wf(),
    ensures
        spec_pack_recipient(r).len() == RECIPIENT_LEN,
{
    lemma_auto_spec_u16_to_from_le_bytes();
    lemma_auto_spec_u64_to_from_le_bytes();
    lemma_i64_le_bytes_roundtrip(r.last_claim_time);
}

proof fn lemma_pack_recipients_len(rs: Seq<Recipient>, n: int)
    requires
        0 <= n <= rs.len(),
        forall|i: int| 0 <= i < rs.len() ==> (#[trigger] rs[i]).wf(),
    ensures
        spec_pack_recipients(rs, n).len() == 50 * n,
    decreases n,
{
    if n > 0 {
        lemma_pack_recipients_len(rs, n - 1);
        lemma_pack_recipient_len(rs[n - 1]);
    }
}

proof fn lemma_pack_header_len(v: VestingAccount)
    requires
        v.wf(),
    ensures
        spec_pack_header(v).len() == 141,
{
    lemma_auto_spec_u16_to_from_le_bytes();
    lemma_auto_spec_u64_to_from_le_bytes();
    lemma_i64_le_bytes_roundtrip(v.start_time);
    lemma_i64_le_bytes_roundtrip(v.schedule.cliff_period);
    lemma_i64_le_bytes_roundtrip(v.schedule.vesting_period);
    lemma_i64_le_bytes_roundtrip(v.last_distribution_time);
}

proof fn lemma_pack_recipients_slice(rs: Seq<Recipient>, n: int, i: int)
    requires
        0 <= i < n <= rs.len(),
        forall|t: int| 0 <= t < rs.len() ==> (#[trigger] rs[t]).wf(),
    ensures
        spec_pack_recipients(rs, n).subrange(50 * i, 50 * i + 50) == spec_pack_recipient(rs[i]),
    decreases n,
{
    lemma_pack_recipients_len(rs, n - 1);
    lemma_pack_recipient_len(rs[n - 1]);
    if i == n - 1 {
        assert(spec_pack_recipients(rs, n).subrange(50 * i, 50 * i + 50) =~= spec_pack_recipient(
            rs[i],
        ));
    } else {
        lemma_pack_recipients_slice(rs, n - 1, i);
        lemma_pack_recipient_len(rs[i]);
        assert(spec_pack_recipients(rs, n).subrange(50 * i, 50 * i + 50)
            =~= spec_pack_recipients(rs, n - 1).subrange(50 * i, 50 * i + 50));
    }
}

/// The layout is lossless: a record as this program stores it decodes from
/// its own packed bytes, field for field.
pub proof fn lemma_pack_roundtrip(v: VestingAccount)
    requires
        spec_canonical(v),
    ensures
        spec_pack(v).len() == VESTING_ACCOUNT_LEN,
        spec_unpack_ok(v, spec_pack(v)),
{
    let s = spec_pack(v);
    let h = spec_pack_header(v);
    let r = spec_pack_recipients(v.recipients@, MAX_RECIPIENTS as int);
    lemma_auto_spec_u16_to_from_le_bytes();
    lemma_auto_spec_u64_to_from_le_bytes();
    lemma_i64_le_bytes_roundtrip(v.start_time);
    lemma_i64_le_bytes_roundtrip(v.schedule.cliff_period);
    lemma_i64_le_bytes_roundtrip(v.schedule.vesting_period);
    lemma_i64_le_bytes_roundtrip(v.last_distribution_time);
    lemma_pack_header_len(v);
    lemma_pack_recipients_len(v.recipients@, MAX_RECIPIENTS as int);

    assert(s.subrange(1, 33) =~= v.initializer@);
    assert(s.subrange(33, 65) =~= v.mint@);
    assert(s.subrange(65, 97) =~= v.vault@);
    assert(s.subrange(97, 105) =~= spec_i64_to_le_bytes(v.start_time));
    assert(s.subrange(105, 113) =~= spec_u64_to_le_bytes(v.total_amount));
    assert(s.subrange(113, 121) =~= spec_i64_to_le_bytes(v.schedule.cliff_period));
    assert(s.subrange(121, 129) =~= spec_i64_to_le_bytes(v.schedule.vesting_period));
    assert(s.subrange(129, 131) =~= spec_u16_to_le_bytes(v.schedule.tge_basis_points));
    assert(s.subrange(133, 141) =~= spec_i64_to_le_bytes(v.last_distribution_time));
    assert(s[0] == spec_bool_byte(v.is_initialized));
    assert(s[131] == v.recipient_count);
    assert(s[132] == spec_bool_byte(v.is_finalized));

    assert forall|i: int|
        0 <= i < MAX_RECIPIENTS implies spec_slot_decoded(
        #[trigger] v.recipients@[i],
        s,
        i,
        dec_recipient_count(s),
    ) by {
        let slot = v.recipients@[i];
        lemma_pack_recipients_slice(v.recipients@, MAX_RECIPIENTS as int, i);
        lemma_pack_recipient_len(slot);
        let piece = spec_pack_recipient(slot);
        if i < v.recipient_count {
            assert(dec_wallet(s, i) =~= piece.subrange(0, 32));
            assert(piece.subrange(0, 32) =~= slot.wallet@);
            assert(dec_basis_points(s, i) == slot.basis_points) by {
                assert(s.subrange(slot_off(i) + 32, slot_off(i) + 34) =~= piece.subrange(32, 34));
                assert(piece.subrange(32, 34) =~= spec_u16_to_le_bytes(slot.basis_points));
            }
            assert(dec_claimed_amount(s, i) == slot.claimed_amount) by {
                assert(s.subrange(slot_off(i) + 34, slot_off(i) + 42) =~= piece.subrange(34, 42));
                assert(piece.subrange(34, 42) =~= spec_u64_to_le_bytes(slot.claimed_amount));
            }
            assert(dec_last_claim_time(s, i) == slot.last_claim_time) by {
                assert(s.subrange(slot_off(i) + 42, slot_off(i) + 50) =~= piece.subrange(42, 50));
                assert(piece.subrange(42, 50) =~= spec_i64_to_le_bytes(slot.last_claim_time));
                lemma_i64_le_bytes_roundtrip(slot.last_claim_time);
            }
        }
    }
}

} // verus!
