use protosol::account::{account_from_wire, WireAccount};
use protosol::context::{FixtureContext, WireContext, WireInstructionAccount};
use protosol::effects::{FixtureEffects, WireEffects};
use protosol::error::FixtureError;
use protosol::fixture::{Fixture, WireFixture};
use protosol::sysvars::{WireRent, WireSlotHash, WireSysvars};

fn wire_account(address: Vec<u8>, owner: Vec<u8>, lamports: u64) -> WireAccount {
    WireAccount { address, owner, lamports, data: vec![1, 2], executable: false, rent_epoch: 7 }
}

fn empty_sysvars() -> WireSysvars {
    WireSysvars {
        clock: None,
        epoch_rewards: None,
        epoch_schedule: None,
        rent: None,
        slot_hashes: None,
        stake_history: None,
    }
}

fn valid_context() -> WireContext {
    WireContext {
        program_id: vec![3; 32],
        loader_id: vec![4; 32],
        feature_set: Some(vec![17, 42]),
        sysvars: None,
        accounts: vec![wire_account(vec![5; 32], vec![6; 32], 10), wire_account(vec![8; 32], vec![6; 32], 20)],
        instr_accounts: vec![WireInstructionAccount { index: 1, is_signer: true, is_writable: false }],
        data: vec![9, 9, 9],
    }
}

const BAD_LENGTHS: [usize; 5] = [0, 1, 31, 33, 64];

#[test]
fn valid_context_converts() {
    let c = FixtureContext::try_from_wire(valid_context()).unwrap();
    assert_eq!(c.program_id.bytes, [3; 32]);
    assert_eq!(c.loader_id.bytes, [4; 32]);
    assert_eq!(c.accounts.len(), 2);
    assert_eq!(c.accounts[1].0.bytes, [8; 32]);
    assert_eq!(c.accounts[1].1.lamports, 20);
    assert_eq!(c.accounts[1].1.rent_epoch, 7);
    assert_eq!(c.instruction_accounts.len(), 1);
    assert_eq!(c.instruction_accounts[0].index, 1);
    assert_eq!(c.instruction_accounts[0].address.bytes, [8; 32]);
    assert!(c.instruction_accounts[0].is_signer);
    assert!(!c.instruction_accounts[0].is_writable);
    assert_eq!(c.instruction_data, vec![9, 9, 9]);
    assert!(c.feature_set.is_enabled(42));
    assert!(!c.feature_set.is_enabled(43));
}

#[test]
fn malformed_program_and_loader_ids_are_rejected() {
    for len in BAD_LENGTHS {
        let mut w = valid_context();
        w.program_id = vec![1; len];
        assert_eq!(FixtureContext::try_from_wire(w).unwrap_err(), FixtureError::InvalidPubkeyBytes);
        let mut w = valid_context();
        w.loader_id = vec![1; len];
        assert_eq!(FixtureContext::try_from_wire(w).unwrap_err(), FixtureError::InvalidPubkeyBytes);
    }
}

#[test]
fn malformed_account_identities_are_rejected() {
    for len in BAD_LENGTHS {
        let mut w = valid_context();
        w.accounts[0].address = vec![1; len];
        assert_eq!(FixtureContext::try_from_wire(w).unwrap_err(), FixtureError::InvalidPubkeyBytes);
        let mut w = valid_context();
        w.accounts[1].owner = vec![1; len];
        assert_eq!(FixtureContext::try_from_wire(w).unwrap_err(), FixtureError::InvalidPubkeyBytes);
        assert_eq!(
            account_from_wire(&wire_account(vec![0; len], vec![0; 32], 1)).unwrap_err(),
            FixtureError::InvalidPubkeyBytes
        );
    }
}

#[test]
fn malformed_slot_hashes_are_rejected() {
    for len in BAD_LENGTHS {
        let mut w = valid_context();
        let mut s = empty_sysvars();
        s.slot_hashes = Some(vec![WireSlotHash { slot: 1, hash: vec![0; 32] }, WireSlotHash { slot: 2, hash: vec![0; len] }]);
        w.sysvars = Some(s);
        assert_eq!(FixtureContext::try_from_wire(w).unwrap_err(), FixtureError::InvalidHashBytes);
    }
}

#[test]
fn malformed_effects_accounts_are_rejected() {
    for len in BAD_LENGTHS {
        let w = WireEffects { result: 0, custom_error: 0, modified_accounts: vec![wire_account(vec![2; len], vec![2; 32], 1)] };
        assert_eq!(FixtureEffects::try_from_wire(&w).unwrap_err(), FixtureError::InvalidPubkeyBytes);
    }
}

#[test]
fn dangling_instruction_account_is_rejected() {
    let mut w = valid_context();
    w.instr_accounts.push(WireInstructionAccount { index: 2, is_signer: false, is_writable: false });
    assert_eq!(FixtureContext::try_from_wire(w).unwrap_err(), FixtureError::AccountMissing);
    let mut w = valid_context();
    w.instr_accounts = vec![WireInstructionAccount { index: u32::MAX, is_signer: false, is_writable: false }];
    assert_eq!(FixtureContext::try_from_wire(w).unwrap_err(), FixtureError::AccountMissing);
}

#[test]
fn last_account_index_is_accepted() {
    let mut w = valid_context();
    w.instr_accounts = vec![WireInstructionAccount { index: 1, is_signer: false, is_writable: true }];
    let c = FixtureContext::try_from_wire(w).unwrap();
    assert_eq!(c.instruction_accounts[0].address.bytes, [8; 32]);
}

#[test]
fn references_to_accounts_of_an_empty_context_are_rejected() {
    let mut w = valid_context();
    w.accounts = vec![];
    w.instr_accounts = vec![WireInstructionAccount { index: 0, is_signer: false, is_writable: false }];
    assert_eq!(FixtureContext::try_from_wire(w).unwrap_err(), FixtureError::AccountMissing);
}

#[test]
fn duplicate_accounts_are_kept_and_the_first_is_indexed() {
    let mut w = valid_context();
    w.accounts = vec![wire_account(vec![5; 32], vec![6; 32], 1), wire_account(vec![5; 32], vec![6; 32], 2)];
    w.instr_accounts = vec![WireInstructionAccount { index: 0, is_signer: false, is_writable: false }];
    let c = FixtureContext::try_from_wire(w).unwrap();
    assert_eq!(c.accounts.len(), 2);
    assert_eq!(c.accounts[0].1.lamports, 1);
    assert_eq!(c.accounts[1].1.lamports, 2);
    assert_eq!(c.instruction_accounts[0].index, 0);
}

#[test]
fn rent_error_is_reported_before_identity_errors_of_accounts() {
    let mut w = valid_context();
    let mut s = empty_sysvars();
    s.rent = Some(WireRent { lamports_per_byte_year: 1, exemption_threshold_bits: 0, burn_percent: 256 });
    w.sysvars = Some(s);
    w.accounts[0].address = vec![];
    assert_eq!(FixtureContext::try_from_wire(w).unwrap_err(), FixtureError::IntegerOutOfRange);
}

#[test]
fn fixture_without_input_or_output_is_rejected() {
    let effects = WireEffects { result: 0, custom_error: 0, modified_accounts: vec![] };
    let w = WireFixture { input: None, output: Some(effects.clone()) };
    assert_eq!(Fixture::try_from_wire(w).unwrap_err(), FixtureError::InvalidFixtureInput);
    let w = WireFixture { input: Some(valid_context()), output: None };
    assert_eq!(Fixture::try_from_wire(w).unwrap_err(), FixtureError::InvalidFixtureOutput);
    let mut bad = valid_context();
    bad.program_id = vec![];
    let w = WireFixture { input: Some(bad), output: None };
    assert_eq!(Fixture::try_from_wire(w).unwrap_err(), FixtureError::InvalidPubkeyBytes);
    let w = WireFixture { input: Some(valid_context()), output: Some(effects) };
    let f = Fixture::try_from_wire(w).unwrap();
    assert_eq!(f.output.result, 0);
    assert_eq!(f.input.accounts.len(), 2);
}

#[test]
fn effects_convert_field_by_field() {
    let w = WireEffects { result: -1, custom_error: 77, modified_accounts: vec![wire_account(vec![2; 32], vec![3; 32], 5)] };
    let e = FixtureEffects::try_from_wire(&w).unwrap();
    assert_eq!(e.result, -1);
    assert_eq!(e.custom_error, 77);
    assert_eq!(e.modified_accounts[0].0.bytes, [2; 32]);
    assert_eq!(e.modified_accounts[0].1.owner.bytes, [3; 32]);
    assert_eq!(e.modified_accounts[0].1.data, vec![1, 2]);
}

#[test]
fn error_descriptions() {
    assert_eq!(FixtureError::InvalidPubkeyBytes.description(), "Invalid public key bytes");
    assert_eq!(FixtureError::AccountMissing.description(), "Account missing");
    assert_eq!(FixtureError::IntegerOutOfRange.description(), "Integer out of range");
}

#[test]
fn converted_contexts_are_well_formed() {
    let mut c = FixtureContext::try_from_wire(valid_context()).unwrap();
    assert!(c.is_well_formed());
    c.instruction_accounts[0].index = 2;
    assert!(!c.is_well_formed());
    c.instruction_accounts[0].index = 0;
    assert!(!c.is_well_formed());
}
