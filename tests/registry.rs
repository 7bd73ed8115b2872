use protosol::address::{native_loader_id, Address};
use protosol::registry::{builtin_name, builtin_program_account, builtins, find_builtin, BuiltinProgram};
use protosol::sysvars::Rent;

fn default_rent() -> Rent {
    Rent { lamports_per_byte_year: 3480, exemption_threshold_bits: 2.0f64.to_bits(), burn_percent: 50 }
}

#[test]
fn builtin_ids_match_the_sdk_and_programs() {
    let expected = [
        (BuiltinProgram::System, solana_system_program::id()),
        (BuiltinProgram::Vote, solana_vote_program::id()),
        (BuiltinProgram::Stake, solana_stake_program::id()),
        (BuiltinProgram::Config, solana_config_program::id()),
        (BuiltinProgram::BpfLoaderDeprecated, solana_sdk::bpf_loader_deprecated::id()),
        (BuiltinProgram::BpfLoader, solana_sdk::bpf_loader::id()),
        (BuiltinProgram::BpfLoaderUpgradeable, solana_sdk::bpf_loader_upgradeable::id()),
        (BuiltinProgram::ComputeBudget, solana_sdk::compute_budget::id()),
        (BuiltinProgram::AddressLookupTable, solana_sdk::address_lookup_table::program::id()),
        (BuiltinProgram::ZkTokenProof, solana_zk_token_sdk::zk_token_proof_program::id()),
        (BuiltinProgram::LoaderV4, solana_sdk::loader_v4::id()),
    ];
    assert_eq!(builtins().len(), expected.len());
    for (i, (b, id)) in expected.iter().enumerate() {
        assert_eq!(builtins()[i], *b);
        assert_eq!(b.id().bytes, id.to_bytes());
        assert_eq!(find_builtin(&b.id()), Some(*b));
    }
}

#[test]
fn builtin_names() {
    assert_eq!(builtin_name(&BuiltinProgram::System.id()), "system_program");
    assert_eq!(builtin_name(&BuiltinProgram::BpfLoaderUpgradeable.id()), "solana_bpf_loader_upgradeable_program");
    assert_eq!(builtin_name(&BuiltinProgram::LoaderV4.id()), "loader_v4");
}

#[test]
fn unknown_identity_gets_the_sentinel_name() {
    assert_eq!(builtin_name(&Address::new([0xab; 32])), "unknown_builtin");
    assert_eq!(find_builtin(&Address::new([0xab; 32])), None);
}

#[test]
fn builtin_program_account_holds_the_name() {
    let id = BuiltinProgram::Vote.id();
    let v = builtin_program_account(&id, &default_rent()).unwrap();
    assert_eq!(v.len(), 1);
    assert_eq!(v[0].0, id);
    assert_eq!(v[0].1.data, b"vote_program".to_vec());
    assert_eq!(v[0].1.owner, native_loader_id());
    assert!(v[0].1.executable);
    assert_eq!(v[0].1.rent_epoch, 0);
    assert_eq!(v[0].1.lamports, solana_sdk::rent::Rent::default().minimum_balance(12).max(1));
    let unknown = builtin_program_account(&Address::new([3; 32]), &default_rent()).unwrap();
    assert_eq!(unknown[0].1.data, b"unknown_builtin".to_vec());
}
