use protosol::sdk::STAKE_HISTORY_MAX_ENTRIES;
use protosol::sysvars::{
    rent_from_wire, Clock, EpochRewards, EpochSchedule, FixtureSysvarContext, Rent, WireRent,
    WireSlotHash, WireStakeHistoryEntry, WireSysvars,
};
use protosol::error::FixtureError;

fn empty_sysvars() -> WireSysvars {
    WireSysvars {
        clock: None,
        epoch_rewards: None,
        epoch_schedule: None,
        rent: None,
        slot_hashes: None,
        stake_history: None,
    }
}

#[test]
fn empty_sysvars_give_the_runtime_defaults() {
    let c = FixtureSysvarContext::try_from_wire(empty_sysvars()).unwrap();
    let clock = solana_sdk::clock::Clock::default();
    assert_eq!(c.clock.slot, clock.slot);
    assert_eq!(c.clock.unix_timestamp, clock.unix_timestamp);
    assert_eq!(c.clock, Clock { slot: 0, epoch_start_timestamp: 0, epoch: 0, leader_schedule_epoch: 0, unix_timestamp: 0 });
    assert_eq!(c.epoch_rewards, EpochRewards { total_rewards: 0, distributed_rewards: 0, distribution_complete_block_height: 0 });
    let schedule = solana_sdk::epoch_schedule::EpochSchedule::default();
    assert_eq!(
        c.epoch_schedule,
        EpochSchedule {
            slots_per_epoch: schedule.slots_per_epoch,
            leader_schedule_slot_offset: schedule.leader_schedule_slot_offset,
            warmup: schedule.warmup,
            first_normal_epoch: schedule.first_normal_epoch,
            first_normal_slot: schedule.first_normal_slot,
        }
    );
    assert_eq!(c.epoch_schedule.slots_per_epoch, 432_000);
    assert_eq!(c.epoch_schedule.first_normal_epoch, 14);
    assert_eq!(c.epoch_schedule.first_normal_slot, 524_256);
    let rent = solana_sdk::rent::Rent::default();
    assert_eq!(
        c.rent,
        Rent {
            lamports_per_byte_year: rent.lamports_per_byte_year,
            exemption_threshold_bits: rent.exemption_threshold.to_bits(),
            burn_percent: rent.burn_percent,
        }
    );
    assert_eq!(c.rent.lamports_per_byte_year, 3480);
    assert_eq!(c.rent.exemption_threshold_bits, 2.0f64.to_bits());
    assert_eq!(c.rent.burn_percent, 50);
    assert!(c.slot_hashes.is_empty());
    assert!(c.stake_history.is_empty());
    let d = FixtureSysvarContext::default();
    assert_eq!(d.rent, c.rent);
    assert_eq!(d.epoch_schedule, c.epoch_schedule);
}

#[test]
fn supplied_clock_is_kept_and_the_rest_defaulted() {
    let mut w = empty_sysvars();
    let clock = Clock { slot: 123, epoch_start_timestamp: -5, epoch: 2, leader_schedule_epoch: 3, unix_timestamp: 99 };
    w.clock = Some(clock);
    let c = FixtureSysvarContext::try_from_wire(w).unwrap();
    assert_eq!(c.clock, clock);
    assert_eq!(c.rent.lamports_per_byte_year, 3480);
    assert_eq!(c.epoch_schedule.slots_per_epoch, 432_000);
}

#[test]
fn rent_burn_percent_must_fit_in_eight_bits() {
    let ok = rent_from_wire(WireRent { lamports_per_byte_year: 10, exemption_threshold_bits: 1.5f64.to_bits(), burn_percent: 255 }).unwrap();
    assert_eq!(ok.burn_percent, 255);
    assert_eq!(ok.exemption_threshold_bits, 1.5f64.to_bits());
    let err = rent_from_wire(WireRent { lamports_per_byte_year: 10, exemption_threshold_bits: 0, burn_percent: 256 });
    assert_eq!(err.unwrap_err(), FixtureError::IntegerOutOfRange);
    let mut w = empty_sysvars();
    w.rent = Some(WireRent { lamports_per_byte_year: 1, exemption_threshold_bits: 0, burn_percent: u32::MAX });
    assert_eq!(FixtureSysvarContext::try_from_wire(w).unwrap_err(), FixtureError::IntegerOutOfRange);
}

#[test]
fn slot_hashes_are_sorted_by_slot_highest_first_and_stably() {
    let mut w = empty_sysvars();
    w.slot_hashes = Some(vec![
        WireSlotHash { slot: 5, hash: vec![1; 32] },
        WireSlotHash { slot: 9, hash: vec![2; 32] },
        WireSlotHash { slot: 5, hash: vec![3; 32] },
        WireSlotHash { slot: 7, hash: vec![4; 32] },
    ]);
    let c = FixtureSysvarContext::try_from_wire(w).unwrap();
    let got: Vec<(u64, u8)> = c.slot_hashes.iter().map(|(s, h)| (*s, h.to_bytes()[0])).collect();
    assert_eq!(got, vec![(9, 2), (7, 4), (5, 1), (5, 3)]);
}

#[test]
fn stake_history_keeps_epochs_highest_first_and_replaces_repeats() {
    let mut w = empty_sysvars();
    w.stake_history = Some(vec![
        WireStakeHistoryEntry { epoch: 3, effective: 30, activating: 1, deactivating: 2 },
        WireStakeHistoryEntry { epoch: 8, effective: 80, activating: 0, deactivating: 0 },
        WireStakeHistoryEntry { epoch: 3, effective: 31, activating: 0, deactivating: 0 },
        WireStakeHistoryEntry { epoch: 5, effective: 50, activating: 0, deactivating: 0 },
    ]);
    let c = FixtureSysvarContext::try_from_wire(w).unwrap();
    let got: Vec<(u64, u64)> = c.stake_history.iter().map(|(e, s)| (*e, s.effective)).collect();
    assert_eq!(got, vec![(8, 80), (5, 50), (3, 31)]);
}

#[test]
fn stake_history_keeps_at_most_the_newest_entries() {
    let mut w = empty_sysvars();
    let entries: Vec<WireStakeHistoryEntry> = (0..(STAKE_HISTORY_MAX_ENTRIES as u64 + 3))
        .map(|e| WireStakeHistoryEntry { epoch: e, effective: e, activating: 0, deactivating: 0 })
        .collect();
    w.stake_history = Some(entries);
    let c = FixtureSysvarContext::try_from_wire(w).unwrap();
    assert_eq!(c.stake_history.len(), 512);
    assert_eq!(c.stake_history[0].0, 514);
    assert_eq!(c.stake_history[511].0, 3);
}
