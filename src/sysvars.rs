//! The sysvar set: six independently optional, independently defaulted
//! records, and their validation from the wire.

use vstd::prelude::*;
use solana_sdk::slot_hashes::SlotHashes;
use solana_sdk::stake_history::StakeHistory;
use crate::error::FixtureError;
use crate::sdk::{
    add_stake_history, count_above, default_clock, default_epoch_rewards,
    default_epoch_schedule, default_rent, default_slot_hashes, default_stake_history,
    epochs_descending, history_with, new_slot_hashes, slot_hash_entries, slot_hash_view,
    stake_history_entries, stably_sorted_by_slot,
};

verus! {

/// The clock sysvar.
#[derive(Clone, Copy, Debug, PartialEq, Eq, Structural)]
pub struct Clock {
    pub slot: u64,
    pub epoch_start_timestamp: i64,
    pub epoch: u64,
    pub leader_schedule_epoch: u64,
    pub unix_timestamp: i64,
}

/// The epoch-rewards sysvar.
#[derive(Clone, Copy, Debug, PartialEq, Eq, Structural)]
pub struct EpochRewards {
    pub total_rewards: u64,
    pub distributed_rewards: u64,
    pub distribution_complete_block_height: u64,
}

/// The epoch-schedule sysvar.
#[derive(Clone, Copy, Debug, PartialEq, Eq, Structural)]
pub struct EpochSchedule {
    pub slots_per_epoch: u64,
    pub leader_schedule_slot_offset: u64,
    pub warmup: bool,
    pub first_normal_epoch: u64,
    pub first_normal_slot: u64,
}

/// The rent sysvar. The exemption threshold, a number of years, is kept as
/// the bit pattern of its IEEE-754 double.
#[derive(Clone, Copy, Debug, PartialEq, Eq, Structural)]
pub struct Rent {
    pub lamports_per_byte_year: u64,
    pub exemption_threshold_bits: u64,
    pub burn_percent: u8,
}


/// The runtime's default clock: every field zero.
pub open spec fn clock_default() -> Clock {
    Clock { slot: 0, epoch_start_timestamp: 0, epoch: 0, leader_schedule_epoch: 0, unix_timestamp: 0 }
}

/// The runtime's default epoch rewards: every field zero.
pub open spec fn epoch_rewards_default() -> EpochRewards {
    EpochRewards { total_rewards: 0, distributed_rewards: 0, distribution_complete_block_height: 0 }
}

/// The runtime's default epoch schedule: 432 000 slots per epoch, with warmup.
pub open spec fn epoch_schedule_default() -> EpochSchedule {
    EpochSchedule {
        slots_per_epoch: 432_000,
        leader_schedule_slot_offset: 432_000,
        warmup: true,
        first_normal_epoch: 14,
        first_normal_slot: 524_256,
    }
}

/// The runtime's default rent: 3480 lamports per byte-year, two years to
/// exemption, half of collected rent burned.
pub open spec fn rent_default() -> Rent {
    Rent {
        lamports_per_byte_year: 3480,
        exemption_threshold_bits: 0x4000_0000_0000_0000,
        burn_percent: 50,
    }
}

/// The rent sysvar as it arrives on the wire, with a burn percentage of any
/// 32-bit width.
#[derive(Clone, Copy, Debug)]
pub struct WireRent {
    pub lamports_per_byte_year: u64,
    pub exemption_threshold_bits: u64,
    pub burn_percent: u32,
}

/// Validates the wire rent: the burn percentage must fit in 8 bits.
pub fn rent_from_wire(w: WireRent) -> (r: Result<Rent, FixtureError>)
    ensures
        match r {
            Ok(rent) => w.burn_percent <= 255 && rent == (Rent {
                lamports_per_byte_year: w.lamports_per_byte_year,
                exemption_threshold_bits: w.exemption_threshold_bits,
                burn_percent: w.burn_percent as u8,
            }),
            Err(e) => w.burn_percent > 255 && e == FixtureError::IntegerOutOfRange,
        },
{
    if w.burn_percent > 255 {
        return Err(FixtureError::IntegerOutOfRange);
    }
    Ok(
        Rent {
            lamports_per_byte_year: w.lamports_per_byte_year,
            exemption_threshold_bits: w.exemption_threshold_bits,
            burn_percent: w.burn_percent as u8,
        },
    )
}

/// A slot-hash entry as it arrives on the wire.
#[derive(Clone, Debug)]
pub struct WireSlotHash {
    pub slot: u64,
    pub hash: Vec<u8>,
}

/// The wire slot-hash entries as mathematical pairs.
pub open spec fn wire_slot_entries(v: Seq<WireSlotHash>) -> Seq<(u64, Seq<u8>)> {
    v.map_values(|w: WireSlotHash| (w.slot, w.hash@))
}

/// Every wire slot-hash entry carries a 32-byte hash.
pub open spec fn slot_hashes_valid(v: Seq<WireSlotHash>) -> bool {
    forall|i: int| 0 <= i < v.len() ==> (#[trigger] v[i]).hash@.len() == 32
}

/// Validates one slot-hash entry: the hash must be exactly 32 bytes.
pub fn slot_hash_from_wire(w: &WireSlotHash) -> (r: Result<(u64, [u8; 32]), FixtureError>)
    ensures
        match r {
            Ok(e) => w.hash@.len() == 32 && slot_hash_view(e) == (w.slot, w.hash@),
            Err(err) => w.hash@.len() != 32 && err == FixtureError::InvalidHashBytes,
        },
{
    if w.hash.len() != 32 {
        return Err(FixtureError::InvalidHashBytes);
    }
    let mut hash = [0u8; 32];
    let mut i: usize = 0;
    while i < 32
        invariant
            0 <= i <= 32,
            w.hash@.len() == 32,
            hash@.len() == 32,
            forall|j: int| 0 <= j < i ==> hash@[j] == w.hash@[j],
        decreases 32 - i,
    {
        hash[i] = w.hash[i];
        i = i + 1;
    }
    assert(hash@ =~= w.hash@);
    Ok((w.slot, hash))
}

/// Validates the slot-hash history; the runtime keeps it ordered by slot,
/// highest first.
pub fn slot_hashes_from_wire(v: &Vec<WireSlotHash>) -> (r: Result<SlotHashes, FixtureError>)
    ensures
        match r {
            Ok(h) => slot_hashes_valid(v@) && stably_sorted_by_slot(
                wire_slot_entries(v@),
                slot_hash_entries(h),
            ),
            Err(e) => !slot_hashes_valid(v@) && e == FixtureError::InvalidHashBytes,
        },
{
    let mut entries: Vec<(u64, [u8; 32])> = Vec::new();
    let mut i: usize = 0;
    while i < v.len()
        invariant
            0 <= i <= v@.len(),
            entries@.len() == i,
            forall|j: int| 0 <= j < i ==> v@[j].hash@.len() == 32,
            forall|j: int| 0 <= j < i ==> slot_hash_view(#[trigger] entries@[j]) == (v@[j].slot, v@[j].hash@),
        decreases v@.len() - i,
    {
        let e = match slot_hash_from_wire(&v[i]) {
            Ok(e) => e,
            Err(err) => return Err(err),
        };
        entries.push(e);
        i = i + 1;
    }
    assert(entries@.map_values(|e: (u64, [u8; 32])| slot_hash_view(e)) =~= wire_slot_entries(v@));
    Ok(new_slot_hashes(&entries))
}

/// A stake-history entry as it arrives on the wire.
#[derive(Clone, Copy, Debug)]
pub struct WireStakeHistoryEntry {
    pub epoch: u64,
    pub effective: u64,
    pub activating: u64,
    pub deactivating: u64,
}

/// A wire stake-history entry as a tuple.
pub open spec fn stake_entry_tuple(w: WireStakeHistoryEntry) -> (u64, u64, u64, u64) {
    (w.epoch, w.effective, w.activating, w.deactivating)
}

/// The stake history that adding the wire entries in order to an empty one
/// gives.
pub open spec fn history_of(v: Seq<WireStakeHistoryEntry>) -> Seq<(u64, u64, u64, u64)>
    decreases v.len(),
{
    if v.len() == 0 {
        Seq::empty()
    } else {
        history_with(history_of(v.drop_last()), stake_entry_tuple(v.last()))
    }
}

/// The leading entries counted by `count_above` are exactly those above
/// `epoch`.
proof fn lemma_count_above(s: Seq<(u64, u64, u64, u64)>, epoch: u64)
    ensures
        count_above(s, epoch) <= s.len(),
        forall|j: int| 0 <= j < count_above(s, epoch) ==> s[j].0 > epoch,
        count_above(s, epoch) < s.len() ==> s[count_above(s, epoch) as int].0 <= epoch,
    decreases s.len(),
{
    if s.len() > 0 && s[0].0 > epoch {
        lemma_count_above(s.drop_first(), epoch);
        assert forall|j: int| 0 <= j < count_above(s, epoch) implies s[j].0 > epoch by {
            if j > 0 {
                assert(s[j] == s.drop_first()[j - 1]);
            }
        }
    }
}

/// Storing an entry keeps a history ordered by epoch.
proof fn lemma_history_with_ordered(s: Seq<(u64, u64, u64, u64)>, e: (u64, u64, u64, u64))
    requires
        epochs_descending(s),
    ensures
        epochs_descending(history_with(s, e)),
{
    lemma_count_above(s, e.0);
    let i = count_above(s, e.0) as int;
    let t = if i < s.len() && s[i].0 == e.0 {
        s.update(i, e)
    } else {
        s.insert(i, e)
    };
    assert forall|j: int| i <= j < s.len() implies s[j].0 <= e.0 by {
        if j > i {
            assert(s[i].0 > s[j].0);
        }
    }
    assert(epochs_descending(t)) by {
        assert forall|a: int, b: int| 0 <= a < b < t.len() implies t[a].0 > t[b].0 by {
            if !(i < s.len() && s[i].0 == e.0) {
                if i < s.len() {
                    assert(s[i].0 < e.0);
                    assert forall|j: int| i <= j < s.len() implies s[j].0 < e.0 by {
                        if j > i {
                            assert(s[i].0 > s[j].0);
                        }
                    }
                }
            }
        }
    }
    if t.len() > 512 {
        assert(epochs_descending(t.take(512)));
    }
}

/// Builds the stake history from its wire entries, adding each in order.
pub fn stake_history_from_wire(v: &Vec<WireStakeHistoryEntry>) -> (r: StakeHistory)
    ensures
        stake_history_entries(r) == history_of(v@),
{
    let mut h = default_stake_history();
    let mut i: usize = 0;
    while i < v.len()
        invariant
            0 <= i <= v@.len(),
            stake_history_entries(h) == history_of(v@.subrange(0, i as int)),
            epochs_descending(stake_history_entries(h)),
        decreases v@.len() - i,
    {
        let w = v[i];
        proof {
            assert(v@.subrange(0, i + 1).drop_last() =~= v@.subrange(0, i as int));
            lemma_history_with_ordered(stake_history_entries(h), stake_entry_tuple(w));
        }
        add_stake_history(&mut h, w.epoch, w.effective, w.activating, w.deactivating);
        i = i + 1;
    }
    assert(v@.subrange(0, v@.len() as int) =~= v@);
    h
}

/// The sysvar set as it arrives on the wire: each record optional.
#[derive(Clone, Debug)]
pub struct WireSysvars {
    pub clock: Option<Clock>,
    pub epoch_rewards: Option<EpochRewards>,
    pub epoch_schedule: Option<EpochSchedule>,
    pub rent: Option<WireRent>,
    pub slot_hashes: Option<Vec<WireSlotHash>>,
    pub stake_history: Option<Vec<WireStakeHistoryEntry>>,
}

/// The first validation failure of a wire sysvar set, checking rent, then
/// the slot hashes.
pub open spec fn wire_sysvars_error(w: WireSysvars) -> Option<FixtureError> {
    let rent_ok = match w.rent {
        Some(r) => r.burn_percent <= 255,
        None => true,
    };
    let slot_hashes_ok = match w.slot_hashes {
        Some(v) => slot_hashes_valid(v@),
        None => true,
    };
    if !rent_ok {
        Some(FixtureError::IntegerOutOfRange)
    } else if !slot_hashes_ok {
        Some(FixtureError::InvalidHashBytes)
    } else {
        None
    }
}

/// The complete sysvar set handed to the runtime.
#[derive(Debug)]
pub struct FixtureSysvarContext {
    pub clock: Clock,
    pub epoch_rewards: EpochRewards,
    pub epoch_schedule: EpochSchedule,
    pub rent: Rent,
    pub slot_hashes: SlotHashes,
    pub stake_history: StakeHistory,
}

/// `c` holds the runtime's default for every sysvar.
pub open spec fn is_default_sysvars(c: FixtureSysvarContext) -> bool {
    &&& c.clock == clock_default()
    &&& c.epoch_rewards == epoch_rewards_default()
    &&& c.epoch_schedule == epoch_schedule_default()
    &&& c.rent == rent_default()
    &&& slot_hash_entries(c.slot_hashes) == Seq::<(u64, Seq<u8>)>::empty()
    &&& stake_history_entries(c.stake_history) == Seq::<(u64, u64, u64, u64)>::empty()
}

/// `c` is the sysvar set that the valid wire set `w` stands for: each
/// record given is taken over, each record absent is the runtime's default.
pub open spec fn sysvars_from(w: WireSysvars, c: FixtureSysvarContext) -> bool {
    &&& c.clock == match w.clock {
        Some(x) => x,
        None => clock_default(),
    }
    &&& c.epoch_rewards == match w.epoch_rewards {
        Some(x) => x,
        None => epoch_rewards_default(),
    }
    &&& c.epoch_schedule == match w.epoch_schedule {
        Some(x) => x,
        None => epoch_schedule_default(),
    }
    &&& c.rent == match w.rent {
        Some(x) => Rent {
            lamports_per_byte_year: x.lamports_per_byte_year,
            exemption_threshold_bits: x.exemption_threshold_bits,
            burn_percent: x.burn_percent as u8,
        },
        None => rent_default(),
    }
    &&& match w.slot_hashes {
        Some(v) => stably_sorted_by_slot(wire_slot_entries(v@), slot_hash_entries(c.slot_hashes)),
        None => slot_hash_entries(c.slot_hashes) == Seq::<(u64, Seq<u8>)>::empty(),
    }
    &&& match w.stake_history {
        Some(v) => stake_history_entries(c.stake_history) == history_of(v@),
        None => stake_history_entries(c.stake_history) == Seq::<(u64, u64, u64, u64)>::empty(),
    }
}

impl Default for FixtureSysvarContext {
    fn default() -> (r: FixtureSysvarContext)
        ensures
            is_default_sysvars(r),
    {
        FixtureSysvarContext {
            clock: default_clock(),
            epoch_rewards: default_epoch_rewards(),
            epoch_schedule: default_epoch_schedule(),
            rent: default_rent(),
            slot_hashes: default_slot_hashes(),
            stake_history: default_stake_history(),
        }
    }
}

impl FixtureSysvarContext {
    /// Validates a wire sysvar set, defaulting each absent record on its own.
    /// An empty set gives the runtime's defaults for all six sysvars.
    pub fn try_from_wire(w: WireSysvars) -> (r: Result<FixtureSysvarContext, FixtureError>)
        ensures
            match r {
                Ok(c) => wire_sysvars_error(w) is None && sysvars_from(w, c),
                Err(e) => wire_sysvars_error(w) == Some(e),
            },
            (w.clock is None && w.epoch_rewards is None && w.epoch_schedule is None
                && w.rent is None && w.slot_hashes is None && w.stake_history is None) ==> (
            r matches Ok(c) && is_default_sysvars(c)),
    {
        let clock = match w.clock {
            Some(c) => c,
            None => default_clock(),
        };
        let epoch_rewards = match w.epoch_rewards {
            Some(e) => e,
            None => default_epoch_rewards(),
        };
        let epoch_schedule = match w.epoch_schedule {
            Some(e) => e,
            None => default_epoch_schedule(),
        };
        let rent = match w.rent {
            Some(r) => rent_from_wire(r)?,
            None => default_rent(),
        };
        let slot_hashes = match &w.slot_hashes {
            Some(v) => slot_hashes_from_wire(v)?,
            None => default_slot_hashes(),
        };
        let stake_history = match &w.stake_history {
            Some(v) => stake_history_from_wire(v),
            None => default_stake_history(),
        };
        Ok(
            FixtureSysvarContext {
                clock,
                epoch_rewards,
                epoch_schedule,
                rent,
                slot_hashes,
                stake_history,
            },
        )
    }
}

} // verus!
