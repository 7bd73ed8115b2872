//! The runtime SDK and serializer calls the library relies on, each with the
//! contract it is trusted to meet.

use vstd::prelude::*;
use solana_sdk::bpf_loader_upgradeable::UpgradeableLoaderState;
use solana_sdk::instruction::InstructionError;
use solana_sdk::program_error::ProgramError;
use solana_sdk::pubkey::Pubkey;
use solana_sdk::slot_hashes::SlotHashes;
use solana_sdk::stake_history::{StakeHistory, StakeHistoryEntry};
use crate::address::Address;
use crate::synthesis::LoaderState;
use crate::sysvars::{Clock, EpochRewards, EpochSchedule, Rent};

verus! {

#[verifier::external_type_specification]
#[verifier::external_body]
pub struct ExSlotHashes(SlotHashes);

#[verifier::external_type_specification]
#[verifier::external_body]
pub struct ExStakeHistory(StakeHistory);

#[verifier::external_type_specification]
#[verifier::external_body]
pub struct ExStakeHistoryEntry(StakeHistoryEntry);

#[verifier::external_type_specification]
#[verifier::external_body]
pub struct ExHash(solana_sdk::hash::Hash);

#[verifier::external_type_specification]
pub struct ExInstructionError(InstructionError);

#[verifier::external_type_specification]
pub struct ExProgramError(ProgramError);

/// The little-endian bytes of a 64-bit integer.
pub open spec fn le_bytes_u64(x: u64) -> Seq<u8> {
    seq![
        (x % 0x100) as u8,
        ((x / 0x100) % 0x100) as u8,
        ((x / 0x1_0000) % 0x100) as u8,
        ((x / 0x100_0000) % 0x100) as u8,
        ((x / 0x1_0000_0000) % 0x100) as u8,
        ((x / 0x100_0000_0000) % 0x100) as u8,
        ((x / 0x1_0000_0000_0000) % 0x100) as u8,
        ((x / 0x100_0000_0000_0000) % 0x100) as u8,
    ]
}


/// Bytes that the account storage overhead adds to every account's data
/// length when its rent-exempt balance is computed.
pub const ACCOUNT_STORAGE_OVERHEAD: u64 = 128;

/// The rent-exempt minimum balance that the runtime computes for an account
/// of `data_len` bytes under the given rent parameters.
pub uninterp spec fn rent_exempt_minimum(
    lamports_per_byte_year: u64,
    exemption_threshold_bits: u64,
    data_len: nat,
) -> u64;

/// Relies on `solana_sdk::rent::Rent::minimum_balance`, which multiplies
/// `(128 + data_len) * lamports_per_byte_year` in 64 bits (hence the
/// `requires`) and scales it by the exemption threshold. The threshold is
/// rebuilt from its bit pattern with `bincode::deserialize` of its eight
/// little-endian bytes.
#[verifier::external_body]
pub(crate) fn minimum_balance(rent: &Rent, data_len: usize) -> (r: u64)
    requires
        ACCOUNT_STORAGE_OVERHEAD + data_len <= u64::MAX,
        (ACCOUNT_STORAGE_OVERHEAD + data_len) * rent.lamports_per_byte_year <= u64::MAX,
    ensures
        r == rent_exempt_minimum(
            rent.lamports_per_byte_year,
            rent.exemption_threshold_bits,
            data_len as nat,
        ),
{
    let sdk_rent = solana_sdk::rent::Rent {
        lamports_per_byte_year: rent.lamports_per_byte_year,
        exemption_threshold: bincode::deserialize(&rent.exemption_threshold_bits.to_le_bytes())
            .unwrap(),
        burn_percent: rent.burn_percent,
    };
    sdk_rent.minimum_balance(data_len)
}

/// The program address that the runtime derives from the single seed `seed`
/// under the program `owner`, or `None` where no bump seed gives one.
pub uninterp spec fn derived_program_address(seed: Seq<u8>, owner: Seq<u8>) -> Option<Seq<u8>>;

/// Relies on `Pubkey::try_find_program_address` with the
/// seeds `[seed]`: it returns the first off-curve address over the bump seeds,
/// or `None`, and depends on its arguments alone.
#[verifier::external_body]
pub(crate) fn find_program_address(seed: &Address, owner: &Address) -> (r: Option<Address>)
    ensures
        match r {
            Some(a) => derived_program_address(seed@, owner@) == Some(a@),
            None => derived_program_address(seed@, owner@) is None,
        },
{
    let owner = Pubkey::new_from_array(owner.bytes);
    match Pubkey::try_find_program_address(&[seed.bytes.as_ref()], &owner) {
        Some((address, _bump)) => Some(Address::new(address.to_bytes())),
        None => None,
    }
}

/// The bincode encoding of an optional identity: a one-byte tag, then the
/// 32 bytes where present.
pub open spec fn option_address_bytes(a: Option<Address>) -> Seq<u8> {
    match a {
        Some(x) => seq![1u8] + x@,
        None => seq![0u8],
    }
}

/// The bincode encoding of an upgradeable-loader account header: the variant
/// index as a little-endian `u32`, then the fields in order, integers as
/// little-endian fixed-width values.
pub open spec fn loader_state_bytes(state: LoaderState) -> Seq<u8> {
    match state {
        LoaderState::Program { programdata_address } => seq![2u8, 0, 0, 0] + programdata_address@,
        LoaderState::ProgramData { slot, upgrade_authority_address } => seq![3u8, 0, 0, 0]
            + le_bytes_u64(slot) + option_address_bytes(upgrade_authority_address),
    }
}

/// Relies on `bincode::serialize` of
/// `solana_sdk::bpf_loader_upgradeable::UpgradeableLoaderState`, with
/// bincode's default fixed-width little-endian encoding; serializing this type
/// into memory does not fail.
#[verifier::external_body]
pub(crate) fn serialize_loader_state(state: &LoaderState) -> (r: Vec<u8>)
    ensures
        r@ == loader_state_bytes(*state),
{
    let sdk_state = match *state {
        LoaderState::Program { programdata_address: a } => UpgradeableLoaderState::Program {
            programdata_address: Pubkey::new_from_array(a.bytes),
        },
        LoaderState::ProgramData { slot, upgrade_authority_address: a } => {
            UpgradeableLoaderState::ProgramData {
                slot,
                upgrade_authority_address: a.map(|k| Pubkey::new_from_array(k.bytes)),
            }
        },
    };
    bincode::serialize(&sdk_state).unwrap()
}

/// Relies on `solana_sdk::clock::Clock::default`, derived: every field zero.
#[verifier::external_body]
pub(crate) fn default_clock() -> (r: Clock)
    ensures
        r == crate::sysvars::clock_default(),
{
    let c = solana_sdk::clock::Clock::default();
    Clock {
        slot: c.slot,
        epoch_start_timestamp: c.epoch_start_timestamp,
        epoch: c.epoch,
        leader_schedule_epoch: c.leader_schedule_epoch,
        unix_timestamp: c.unix_timestamp,
    }
}

/// Relies on `solana_sdk::epoch_rewards::EpochRewards::default`, derived:
/// every field zero.
#[verifier::external_body]
pub(crate) fn default_epoch_rewards() -> (r: EpochRewards)
    ensures
        r == crate::sysvars::epoch_rewards_default(),
{
    let e = solana_sdk::epoch_rewards::EpochRewards::default();
    EpochRewards {
        total_rewards: e.total_rewards,
        distributed_rewards: e.distributed_rewards,
        distribution_complete_block_height: e.distribution_complete_block_height,
    }
}

/// Relies on `solana_sdk::epoch_schedule::EpochSchedule::default`, which is
/// `custom(432_000, 432_000, true)`: with warmup, the first normal epoch is
/// `log2(524_288) - log2(32)` and the first normal slot `524_288 - 32`.
#[verifier::external_body]
pub(crate) fn default_epoch_schedule() -> (r: EpochSchedule)
    ensures
        r == crate::sysvars::epoch_schedule_default(),
{
    let e = solana_sdk::epoch_schedule::EpochSchedule::default();
    EpochSchedule {
        slots_per_epoch: e.slots_per_epoch,
        leader_schedule_slot_offset: e.leader_schedule_slot_offset,
        warmup: e.warmup,
        first_normal_epoch: e.first_normal_epoch,
        first_normal_slot: e.first_normal_slot,
    }
}

/// Relies on `solana_sdk::rent::Rent::default`: 3480 lamports per byte-year,
/// an exemption threshold of 2.0 years (bits `0x4000_0000_0000_0000`) and a
/// burn percentage of 50.
#[verifier::external_body]
pub(crate) fn default_rent() -> (r: Rent)
    ensures
        r == crate::sysvars::rent_default(),
{
    let r = solana_sdk::rent::Rent::default();
    Rent {
        lamports_per_byte_year: r.lamports_per_byte_year,
        exemption_threshold_bits: r.exemption_threshold.to_bits(),
        burn_percent: r.burn_percent,
    }
}

/// The entries of a slot-hash history, in stored order.
pub uninterp spec fn slot_hash_entries(h: SlotHashes) -> Seq<(u64, Seq<u8>)>;

/// A slot-hash entry as a pair of mathematical values.
pub open spec fn slot_hash_view(e: (u64, [u8; 32])) -> (u64, Seq<u8>) {
    (e.0, e.1@)
}

/// Entries ordered by slot, highest first.
pub open spec fn slots_descending(s: Seq<(u64, Seq<u8>)>) -> bool {
    forall|i: int, j: int| 0 <= i < j < s.len() ==> s[i].0 >= s[j].0
}

/// The entries of `s` with slot `k`, in their order in `s`.
pub open spec fn entries_at_slot(s: Seq<(u64, Seq<u8>)>, k: u64) -> Seq<(u64, Seq<u8>)> {
    s.filter(|e: (u64, Seq<u8>)| e.0 == k)
}

/// `r` is `s` stably sorted by slot, highest first: ordered by slot, and
/// holding for every slot the entries of `s` with that slot in their order.
pub open spec fn stably_sorted_by_slot(s: Seq<(u64, Seq<u8>)>, r: Seq<(u64, Seq<u8>)>) -> bool {
    &&& slots_descending(r)
    &&& forall|k: u64| #[trigger] entries_at_slot(r, k) == entries_at_slot(s, k)
}

/// Relies on `solana_sdk::slot_hashes::SlotHashes::new`, which copies the
/// entries and orders them with the stable `sort_by` on the slot, highest
/// first.
#[verifier::external_body]
pub(crate) fn new_slot_hashes(entries: &Vec<(u64, [u8; 32])>) -> (r: SlotHashes)
    ensures
        stably_sorted_by_slot(
            entries@.map_values(|e: (u64, [u8; 32])| slot_hash_view(e)),
            slot_hash_entries(r),
        ),
{
    let sdk_entries: Vec<(u64, solana_sdk::hash::Hash)> = entries
        .iter()
        .map(|(slot, hash)| (*slot, solana_sdk::hash::Hash::new_from_array(*hash)))
        .collect();
    SlotHashes::new(&sdk_entries)
}

/// Relies on `solana_sdk::slot_hashes::SlotHashes::default`, derived: no
/// entries.
#[verifier::external_body]
pub(crate) fn default_slot_hashes() -> (r: SlotHashes)
    ensures
        slot_hash_entries(r) == Seq::<(u64, Seq<u8>)>::empty(),
{
    SlotHashes::default()
}

/// The entries of a stake history as `(epoch, effective, activating,
/// deactivating)`, in stored order.
pub uninterp spec fn stake_history_entries(h: StakeHistory) -> Seq<(u64, u64, u64, u64)>;

/// Relies on `solana_sdk::stake_history::StakeHistory::default`, derived: no
/// entries.
#[verifier::external_body]
pub(crate) fn default_stake_history() -> (r: StakeHistory)
    ensures
        stake_history_entries(r) == Seq::<(u64, u64, u64, u64)>::empty(),
{
    StakeHistory::default()
}

/// The most entries a stake history keeps.
pub const STAKE_HISTORY_MAX_ENTRIES: usize = 512;

/// Entries ordered by epoch, strictly decreasing.
pub open spec fn epochs_descending(s: Seq<(u64, u64, u64, u64)>) -> bool {
    forall|i: int, j: int| 0 <= i < j < s.len() ==> s[i].0 > s[j].0
}

/// The number of leading entries whose epoch is above `epoch`.
pub open spec fn count_above(s: Seq<(u64, u64, u64, u64)>, epoch: u64) -> nat
    decreases s.len(),
{
    if s.len() == 0 || s[0].0 <= epoch {
        0
    } else {
        1 + count_above(s.drop_first(), epoch)
    }
}

/// `s` with the entry `e` stored at its epoch: an entry of the same epoch is
/// replaced, else `e` goes where the order by epoch puts it; the result keeps
/// at most 512 entries, the newest.
pub open spec fn history_with(
    s: Seq<(u64, u64, u64, u64)>,
    e: (u64, u64, u64, u64),
) -> Seq<(u64, u64, u64, u64)> {
    let i = count_above(s, e.0) as int;
    let t = if i < s.len() && s[i].0 == e.0 {
        s.update(i, e)
    } else {
        s.insert(i, e)
    };
    if t.len() > STAKE_HISTORY_MAX_ENTRIES {
        t.take(STAKE_HISTORY_MAX_ENTRIES as int)
    } else {
        t
    }
}

/// Relies on `solana_sdk::stake_history::StakeHistory::add`: a binary search
/// by epoch over entries kept highest first, replacing the entry of an equal
/// epoch or inserting at the position found, then truncating to 512 entries.
/// On entries ordered by epoch the position is the one `history_with` names.
#[verifier::external_body]
pub(crate) fn add_stake_history(
    h: &mut StakeHistory,
    epoch: u64,
    effective: u64,
    activating: u64,
    deactivating: u64,
)
    requires
        epochs_descending(stake_history_entries(*old(h))),
    ensures
        stake_history_entries(*final(h)) == history_with(
            stake_history_entries(*old(h)),
            (epoch, effective, activating, deactivating),
        ),
{
    h.add(epoch, StakeHistoryEntry { effective, activating, deactivating });
}

/// The program error that a runtime error converts to: each runtime error
/// with a program-error counterpart of the same name (a custom error keeps its
/// number, an I/O error its message); no other converts.
pub open spec fn program_error_for(err: InstructionError) -> Option<ProgramError> {
    match err {
        InstructionError::Custom(n) => Some(ProgramError::Custom(n)),
        InstructionError::InvalidArgument => Some(ProgramError::InvalidArgument),
        InstructionError::InvalidInstructionData => Some(ProgramError::InvalidInstructionData),
        InstructionError::InvalidAccountData => Some(ProgramError::InvalidAccountData),
        InstructionError::AccountDataTooSmall => Some(ProgramError::AccountDataTooSmall),
        InstructionError::InsufficientFunds => Some(ProgramError::InsufficientFunds),
        InstructionError::IncorrectProgramId => Some(ProgramError::IncorrectProgramId),
        InstructionError::MissingRequiredSignature => Some(ProgramError::MissingRequiredSignature),
        InstructionError::AccountAlreadyInitialized => Some(ProgramError::AccountAlreadyInitialized),
        InstructionError::UninitializedAccount => Some(ProgramError::UninitializedAccount),
        InstructionError::NotEnoughAccountKeys => Some(ProgramError::NotEnoughAccountKeys),
        InstructionError::AccountBorrowFailed => Some(ProgramError::AccountBorrowFailed),
        InstructionError::MaxSeedLengthExceeded => Some(ProgramError::MaxSeedLengthExceeded),
        InstructionError::InvalidSeeds => Some(ProgramError::InvalidSeeds),
        InstructionError::BorshIoError(m) => Some(ProgramError::BorshIoError(m)),
        InstructionError::AccountNotRentExempt => Some(ProgramError::AccountNotRentExempt),
        InstructionError::UnsupportedSysvar => Some(ProgramError::UnsupportedSysvar),
        InstructionError::IllegalOwner => Some(ProgramError::IllegalOwner),
        InstructionError::MaxAccountsDataAllocationsExceeded => Some(ProgramError::MaxAccountsDataAllocationsExceeded),
        InstructionError::InvalidRealloc => Some(ProgramError::InvalidRealloc),
        InstructionError::MaxInstructionTraceLengthExceeded => Some(ProgramError::MaxInstructionTraceLengthExceeded),
        InstructionError::BuiltinProgramsMustConsumeComputeUnits => Some(ProgramError::BuiltinProgramsMustConsumeComputeUnits),
        InstructionError::InvalidAccountOwner => Some(ProgramError::InvalidAccountOwner),
        InstructionError::ArithmeticOverflow => Some(ProgramError::ArithmeticOverflow),
        _ => None,
    }
}

/// Relies on `TryFrom<InstructionError> for ProgramError`, whose arms are
/// the ones `program_error_for` lists; any other error comes back, read here
/// as `None`.
#[verifier::external_body]
pub(crate) fn program_error_of(err: InstructionError) -> (r: Option<ProgramError>)
    ensures
        r == program_error_for(err),
{
    ProgramError::try_from(err).ok()
}

/// A builtin program error code: its number in the upper 32 bits.
pub open spec fn builtin_code(k: u64) -> u64 {
    (k * 0x1_0000_0000) as u64
}

/// The code of a program error: a custom error keeps its number, custom
/// error zero becomes builtin code 1, and each builtin error has its own code,
/// 2 to 24 in the order of the enum.
pub open spec fn program_error_number(err: ProgramError) -> u64 {
    match err {
        ProgramError::Custom(n) => if n == 0 {
            builtin_code(1)
        } else {
            n as u64
        },
        ProgramError::InvalidArgument => builtin_code(2),
        ProgramError::InvalidInstructionData => builtin_code(3),
        ProgramError::InvalidAccountData => builtin_code(4),
        ProgramError::AccountDataTooSmall => builtin_code(5),
        ProgramError::InsufficientFunds => builtin_code(6),
        ProgramError::IncorrectProgramId => builtin_code(7),
        ProgramError::MissingRequiredSignature => builtin_code(8),
        ProgramError::AccountAlreadyInitialized => builtin_code(9),
        ProgramError::UninitializedAccount => builtin_code(10),
        ProgramError::NotEnoughAccountKeys => builtin_code(11),
        ProgramError::AccountBorrowFailed => builtin_code(12),
        ProgramError::MaxSeedLengthExceeded => builtin_code(13),
        ProgramError::InvalidSeeds => builtin_code(14),
        ProgramError::BorshIoError(_) => builtin_code(15),
        ProgramError::AccountNotRentExempt => builtin_code(16),
        ProgramError::UnsupportedSysvar => builtin_code(17),
        ProgramError::IllegalOwner => builtin_code(18),
        ProgramError::MaxAccountsDataAllocationsExceeded => builtin_code(19),
        ProgramError::InvalidRealloc => builtin_code(20),
        ProgramError::MaxInstructionTraceLengthExceeded => builtin_code(21),
        ProgramError::BuiltinProgramsMustConsumeComputeUnits => builtin_code(22),
        ProgramError::InvalidAccountOwner => builtin_code(23),
        ProgramError::ArithmeticOverflow => builtin_code(24),
    }
}

/// Relies on `From<ProgramError> for u64`, whose arms are the ones
/// `program_error_number` lists.
#[verifier::external_body]
pub(crate) fn program_error_code(err: ProgramError) -> (r: u64)
    ensures
        r == program_error_number(err),
{
    u64::from(err)
}

} // verus!
