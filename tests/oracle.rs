use protosol::address::{upgradeable_loader_id, Address};
use protosol::context::{FeatureSet, FixtureContext};
use protosol::synthesis::synthesize;
use protosol::sysvars::FixtureSysvarContext;
use protosol::effects::FixtureEffects;
use protosol::oracle::{
    compare_effects, execution_status, failure_status, observed_effects, resulting_accounts,
    Verdict, UNMAPPED_ERROR_CODE,
};
use protosol::AccountState;
use solana_sdk::instruction::InstructionError;

fn state(lamports: u64) -> AccountState {
    AccountState { lamports, data: vec![1], owner: Address::new([1; 32]), executable: false, rent_epoch: 0 }
}

fn effects(accounts: Vec<(Address, AccountState)>) -> FixtureEffects {
    FixtureEffects { result: 0, custom_error: 0, modified_accounts: accounts }
}

#[test]
fn partial_match_reports_the_changed_expected_account_only() {
    let (a, b, c) = (Address::new([1; 32]), Address::new([2; 32]), Address::new([3; 32]));
    let actual = effects(vec![(a, state(1)), (b, state(2)), (c, state(3))]);
    let expected = effects(vec![(a, state(1)), (b, state(22))]);
    match compare_effects(&actual, &expected) {
        Verdict::AccountMismatch { address } => assert_eq!(address, b),
        other => panic!("unexpected verdict {:?}", other),
    }
    let expected = effects(vec![(a, state(1)), (b, state(2))]);
    assert!(matches!(compare_effects(&actual, &expected), Verdict::Match));
}

#[test]
fn empty_expectation_always_matches() {
    let actual = effects(vec![(Address::new([1; 32]), state(1)), (Address::new([2; 32]), state(9))]);
    assert!(matches!(compare_effects(&actual, &effects(vec![])), Verdict::Match));
    assert!(matches!(compare_effects(&effects(vec![]), &effects(vec![])), Verdict::Match));
}

#[test]
fn expected_accounts_absent_from_actual_are_not_checked() {
    let actual = effects(vec![(Address::new([1; 32]), state(1))]);
    let expected = effects(vec![(Address::new([5; 32]), state(100))]);
    assert!(matches!(compare_effects(&actual, &expected), Verdict::Match));
}

#[test]
fn repeated_identity_in_actual_uses_the_last_state() {
    let a = Address::new([1; 32]);
    let actual = effects(vec![(a, state(1)), (a, state(2))]);
    assert!(matches!(compare_effects(&actual, &effects(vec![(a, state(2))])), Verdict::Match));
    assert!(matches!(compare_effects(&actual, &effects(vec![(a, state(1))])), Verdict::AccountMismatch { .. }));
}

#[test]
fn codes_are_compared_exactly_and_first() {
    let a = Address::new([1; 32]);
    let actual = FixtureEffects { result: -1, custom_error: 4, modified_accounts: vec![(a, state(1))] };
    let expected = FixtureEffects { result: 0, custom_error: 4, modified_accounts: vec![(a, state(2))] };
    assert!(matches!(compare_effects(&actual, &expected), Verdict::ResultMismatch { expected: 0, actual: -1 }));
    let expected = FixtureEffects { result: -1, custom_error: 5, modified_accounts: vec![(a, state(2))] };
    assert!(matches!(compare_effects(&actual, &expected), Verdict::CustomErrorMismatch { expected: 5, actual: 4 }));
}

#[test]
fn runtime_outcomes_map_to_status_codes() {
    assert_eq!(execution_status(Ok(())), (0, 0));
    assert_eq!(execution_status(Err(InstructionError::Custom(5))), (-1, 5));
    assert_eq!(execution_status(Err(InstructionError::Custom(0))), (-1, 1 << 32));
    assert_eq!(execution_status(Err(InstructionError::IncorrectProgramId)), (-1, 30064771072));
    assert_eq!(execution_status(Err(InstructionError::MissingRequiredSignature)), (-1, 34359738368));
    assert_eq!(execution_status(Err(InstructionError::InsufficientFunds)), (-1, 25769803776));
    assert_eq!(execution_status(Err(InstructionError::InvalidAccountData)), (-1, 17179869184));
    assert_eq!(execution_status(Err(InstructionError::ExternalAccountLamportSpend)), (-1, 18446744073709551615));
    assert_eq!(failure_status(None), (-1, UNMAPPED_ERROR_CODE));
    assert_eq!(failure_status(Some(12)), (-1, 12));
}

#[test]
fn resulting_accounts_drop_the_synthesized_prefix_and_rekey() {
    let (a, b) = (Address::new([1; 32]), Address::new([2; 32]));
    let fixture = vec![(a, state(10)), (b, state(20))];
    let post = vec![state(100), state(101), state(11), state(21)];
    let r = resulting_accounts(&post, 2, &fixture);
    assert_eq!(r, vec![(a, state(11)), (b, state(21))]);
    let r = resulting_accounts(&post, 1, &fixture);
    assert_eq!(r, vec![(a, state(101)), (b, state(11))]);
    assert!(resulting_accounts(&post, 5, &fixture).is_empty());
    let e = observed_effects((-1, 3), &post, 2, &fixture);
    assert_eq!(e, FixtureEffects { result: -1, custom_error: 3, modified_accounts: vec![(a, state(11)), (b, state(21))] });
}

#[test]
fn synthesized_prefix_round_trips_to_the_fixture_accounts() {
    let (a, b) = (Address::new([1; 32]), Address::new([2; 32]));
    let ctx = FixtureContext {
        program_id: Address::new([4; 32]),
        loader_id: upgradeable_loader_id(),
        feature_set: FeatureSet::empty(),
        sysvar_context: FixtureSysvarContext::default(),
        accounts: vec![(b, state(2)), (a, state(1)), (b, state(3))],
        instruction_accounts: vec![],
        instruction_data: vec![],
    };
    let plan = synthesize(&ctx, &vec![1, 2, 3]).unwrap();
    let post: Vec<AccountState> = plan.accounts.iter().map(|(_, s)| s.clone()).collect();
    let r = resulting_accounts(&post, plan.synthesized, &ctx.accounts);
    assert_eq!(r, ctx.accounts);
}

#[test]
fn every_mapped_runtime_error_gets_its_builtin_code() {
    assert_eq!(execution_status(Err(InstructionError::InvalidArgument)), (-1, 2 << 32));
    assert_eq!(execution_status(Err(InstructionError::InvalidInstructionData)), (-1, 3 << 32));
    assert_eq!(execution_status(Err(InstructionError::BorshIoError("x".to_string()))), (-1, 15 << 32));
    assert_eq!(execution_status(Err(InstructionError::InvalidRealloc)), (-1, 20 << 32));
    assert_eq!(execution_status(Err(InstructionError::ArithmeticOverflow)), (-1, 24 << 32));
    assert_eq!(execution_status(Err(InstructionError::GenericError)), (-1, u64::MAX));
    assert_eq!(execution_status(Err(InstructionError::CallDepth)), (-1, UNMAPPED_ERROR_CODE));
}
