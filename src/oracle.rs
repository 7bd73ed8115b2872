//! The effects oracle: the effects observed after execution, and their
//! partial comparison against the expected effects.

use vstd::prelude::*;
use solana_sdk::instruction::InstructionError;
use crate::account::{entries_view, identities, AccountState, AccountView};
use crate::address::Address;
use crate::effects::{EffectsView, FixtureEffects};
use crate::context::FixtureContext;
use crate::sdk::{program_error_code, program_error_for, program_error_number, program_error_of};
use crate::synthesis::{plan_for, ExecutionPlan};

verus! {

/// The error code recorded for a runtime error that has no program-error
/// code.
pub const UNMAPPED_ERROR_CODE: u64 = 0xffff_ffff_ffff_ffff;

/// The status of a failed execution: `-1`, with the program error code where
/// the runtime error has one, else the unmapped sentinel.
pub fn failure_status(program_error_code: Option<u64>) -> (r: (i32, u64))
    ensures
        r == (-1i32, match program_error_code {
            Some(c) => c,
            None => UNMAPPED_ERROR_CODE,
        }),
{
    match program_error_code {
        Some(c) => (-1, c),
        None => (-1, UNMAPPED_ERROR_CODE),
    }
}

/// The error code recorded for a runtime error: the code of its program
/// error, or the unmapped sentinel where it has none.
pub open spec fn error_code_of(err: InstructionError) -> u64 {
    match program_error_for(err) {
        Some(p) => program_error_number(p),
        None => UNMAPPED_ERROR_CODE,
    }
}

/// The status and error code that the runtime's outcome stands for: `(0, 0)`
/// on success; on failure `-1` and the error's program error code, or the
/// unmapped sentinel where it has none.
pub fn execution_status(outcome: Result<(), InstructionError>) -> (r: (i32, u64))
    ensures
        r == match outcome {
            Ok(()) => (0i32, 0u64),
            Err(e) => (-1i32, error_code_of(e)),
        },
{
    match outcome {
        Ok(()) => (0, 0),
        Err(err) => {
            let code = match program_error_of(err) {
                Some(program_error) => Some(program_error_code(program_error)),
                None => None,
            };
            failure_status(code)
        },
    }
}

/// The post-execution states without the `n` synthesized accounts, each
/// keyed by the fixture identity at the same relative position.
pub open spec fn reassociated(
    post: Seq<AccountView>,
    n: nat,
    accounts: Seq<(Seq<u8>, AccountView)>,
) -> Seq<(Seq<u8>, AccountView)> {
    let rest = if n <= post.len() {
        post.skip(n as int)
    } else {
        Seq::empty()
    };
    let len = if rest.len() <= accounts.len() {
        rest.len()
    } else {
        accounts.len()
    };
    Seq::new(len, |i: int| (accounts[i].0, rest[i]))
}

/// The states of a list of account states.
pub open spec fn states_view(v: Seq<AccountState>) -> Seq<AccountView> {
    v.map_values(|a: AccountState| a@)
}

/// The states of a list of keyed accounts.
pub open spec fn states_of(v: Seq<(Seq<u8>, AccountView)>) -> Seq<AccountView> {
    v.map_values(|e: (Seq<u8>, AccountView)| e.1)
}

/// The resulting accounts of an execution: the runtime's post-execution
/// states with the synthesized prefix dropped, keyed by the fixture's
/// identities.
pub fn resulting_accounts(
    post: &Vec<AccountState>,
    synthesized: usize,
    fixture_accounts: &Vec<(Address, AccountState)>,
) -> (r: Vec<(Address, AccountState)>)
    ensures
        entries_view(r@) == reassociated(
            states_view(post@),
            synthesized as nat,
            entries_view(fixture_accounts@),
        ),
{
    let mut out: Vec<(Address, AccountState)> = Vec::new();
    if synthesized > post.len() {
        assert(entries_view(out@) =~= reassociated(
            states_view(post@),
            synthesized as nat,
            entries_view(fixture_accounts@),
        ));
        return out;
    }
    let ghost goal = reassociated(
        states_view(post@),
        synthesized as nat,
        entries_view(fixture_accounts@),
    );
    let mut i: usize = 0;
    while i < post.len() - synthesized && i < fixture_accounts.len()
        invariant
            synthesized <= post@.len(),
            0 <= i <= fixture_accounts@.len(),
            synthesized + i <= post@.len(),
            i <= goal.len(),
            goal == reassociated(
                states_view(post@),
                synthesized as nat,
                entries_view(fixture_accounts@),
            ),
            entries_view(out@) == goal.subrange(0, i as int),
        decreases fixture_accounts@.len() - i,
    {
        let e = (fixture_accounts[i].0, post[synthesized + i].duplicate());
        let ghost prev = out@;
        out.push(e);
        proof {
            assert(entries_view(out@) =~= entries_view(prev).push(crate::account::entry_view(e)));
            assert(goal.subrange(0, i + 1) =~= goal.subrange(0, i as int).push(goal[i as int]));
        }
        i = i + 1;
    }
    assert(goal.subrange(0, i as int) =~= goal);
    out
}

/// The effects observed after an execution.
pub fn observed_effects(
    status: (i32, u64),
    post: &Vec<AccountState>,
    synthesized: usize,
    fixture_accounts: &Vec<(Address, AccountState)>,
) -> (r: FixtureEffects)
    ensures
        r@ == (EffectsView {
            result: status.0,
            custom_error: status.1,
            modified_accounts: reassociated(
                states_view(post@),
                synthesized as nat,
                entries_view(fixture_accounts@),
            ),
        }),
{
    FixtureEffects {
        result: status.0,
        custom_error: status.1,
        modified_accounts: resulting_accounts(post, synthesized, fixture_accounts),
    }
}

/// Stripping the synthesized prefix from an assembled account list and
/// re-keying what remains by the fixture's identities gives back the
/// fixture's identities, in their order.
pub proof fn lemma_round_trip_identities(
    synthesized: Seq<(Seq<u8>, AccountView)>,
    accounts: Seq<(Seq<u8>, AccountView)>,
)
    ensures
        (synthesized + accounts).skip(synthesized.len() as int) == accounts,
        identities(
            reassociated(states_of(synthesized + accounts), synthesized.len(), accounts),
        ) == identities(accounts),
        states_of(
            reassociated(states_of(synthesized + accounts), synthesized.len(), accounts),
        ) == states_of(accounts),
{
    let all = synthesized + accounts;
    assert(all.skip(synthesized.len() as int) =~= accounts);
    let r = reassociated(states_of(all), synthesized.len(), accounts);
    assert(states_of(all).skip(synthesized.len() as int) =~= states_of(accounts));
    assert(identities(r) =~= identities(accounts));
    assert(states_of(r) =~= states_of(accounts));
}

/// For every plan that synthesis produces, dropping the synthesized prefix
/// from its account list, and re-keying the remaining states by the
/// context's identities, gives back the context's accounts, identities and
/// order included.
pub proof fn lemma_synthesis_round_trip(
    ctx: FixtureContext,
    synthesized: Seq<(Seq<u8>, AccountView)>,
    plan: ExecutionPlan,
)
    requires
        plan_for(ctx, synthesized, plan),
    ensures
        entries_view(plan.accounts@).skip(plan.synthesized as int) == entries_view(ctx.accounts@),
        identities(
            reassociated(
                states_of(entries_view(plan.accounts@)),
                plan.synthesized as nat,
                entries_view(ctx.accounts@),
            ),
        ) == identities(entries_view(ctx.accounts@)),
{
    lemma_round_trip_identities(synthesized, entries_view(ctx.accounts@));
}

/// The position of the last account keyed by `key`.
pub open spec fn last_index_of(actual: Seq<(Seq<u8>, AccountView)>, key: Seq<u8>) -> Option<int>
    decreases actual.len(),
{
    if actual.len() == 0 {
        None
    } else if actual.last().0 == key {
        Some(actual.len() - 1)
    } else {
        last_index_of(actual.drop_last(), key)
    }
}

/// The state of the account keyed by `key`; where the key repeats, the last
/// one counts.
pub open spec fn lookup(actual: Seq<(Seq<u8>, AccountView)>, key: Seq<u8>) -> Option<AccountView> {
    match last_index_of(actual, key) {
        Some(i) => Some(actual[i].1),
        None => None,
    }
}

/// The identity of the first expected account that is present in `actual`
/// with a different state; expected accounts absent from `actual`, and
/// actual accounts that are not expected, are not checked.
pub open spec fn first_account_mismatch(
    actual: Seq<(Seq<u8>, AccountView)>,
    expected: Seq<(Seq<u8>, AccountView)>,
) -> Option<Seq<u8>>
    decreases expected.len(),
{
    if expected.len() == 0 {
        None
    } else {
        match lookup(actual, expected[0].0) {
            Some(s) if s != expected[0].1 => Some(expected[0].0),
            _ => first_account_mismatch(actual, expected.drop_first()),
        }
    }
}

/// The outcome of comparing observed effects with expected effects.
#[derive(Clone, Copy, Debug)]
pub enum Verdict {
    /// Everything the expected effects assert holds.
    Match,
    /// The status codes differ.
    ResultMismatch { expected: i32, actual: i32 },
    /// The status codes agree and the error codes differ.
    CustomErrorMismatch { expected: u64, actual: u64 },
    /// The codes agree and this expected account has another state.
    AccountMismatch { address: Address },
}

/// `v` is the verdict of comparing `actual` with `expected`: status code,
/// then error code, then the expected accounts in order.
pub open spec fn is_verdict(v: Verdict, actual: EffectsView, expected: EffectsView) -> bool {
    let mismatch = first_account_mismatch(actual.modified_accounts, expected.modified_accounts);
    match v {
        Verdict::Match => actual.result == expected.result && actual.custom_error
            == expected.custom_error && mismatch is None,
        Verdict::ResultMismatch { expected: e, actual: a } => actual.result != expected.result
            && e == expected.result && a == actual.result,
        Verdict::CustomErrorMismatch { expected: e, actual: a } => actual.result
            == expected.result && actual.custom_error != expected.custom_error && e
            == expected.custom_error && a == actual.custom_error,
        Verdict::AccountMismatch { address } => actual.result == expected.result
            && actual.custom_error == expected.custom_error && mismatch == Some(address@),
    }
}

/// Where `last_index_of` finds a position, it holds the key, and where it
/// finds none, no position does.
pub proof fn lemma_last_index_of(actual: Seq<(Seq<u8>, AccountView)>, key: Seq<u8>)
    ensures
        match last_index_of(actual, key) {
            Some(i) => 0 <= i < actual.len() && actual[i].0 == key,
            None => forall|i: int| 0 <= i < actual.len() ==> actual[i].0 != key,
        },
    decreases actual.len(),
{
    if actual.len() > 0 && actual.last().0 != key {
        lemma_last_index_of(actual.drop_last(), key);
        if last_index_of(actual.drop_last(), key) is None {
            assert forall|i: int| 0 <= i < actual.len() implies actual[i].0 != key by {
                if i < actual.len() - 1 {
                    assert(actual[i] == actual.drop_last()[i]);
                }
            }
        }
    }
}

/// The position of the last account of `actual` keyed by `key`.
pub fn find_last(actual: &Vec<(Address, AccountState)>, key: &Address) -> (r: Option<usize>)
    ensures
        match r {
            Some(i) => last_index_of(entries_view(actual@), key@) == Some(i as int),
            None => last_index_of(entries_view(actual@), key@) is None,
        },
{
    let ghost full = entries_view(actual@);
    assert(full.subrange(0, actual@.len() as int) =~= full);
    let mut n: usize = actual.len();
    while n > 0
        invariant
            0 <= n <= actual@.len(),
            full == entries_view(actual@),
            last_index_of(full, key@) == last_index_of(full.subrange(0, n as int), key@),
        decreases n,
    {
        let ghost prefix = full.subrange(0, n as int);
        assert(prefix.drop_last() =~= full.subrange(0, n - 1));
        if actual[n - 1].0 == *key {
            return Some(n - 1);
        }
        n = n - 1;
    }
    assert(full.subrange(0, 0) =~= Seq::<(Seq<u8>, AccountView)>::empty());
    None
}

/// Compares observed effects with expected effects. The codes must agree
/// exactly; an expected account is checked only where the observed accounts
/// hold its identity, and observed accounts that are not expected are
/// ignored.
pub fn compare_effects(actual: &FixtureEffects, expected: &FixtureEffects) -> (r: Verdict)
    ensures
        is_verdict(r, actual@, expected@),
{
    if actual.result != expected.result {
        return Verdict::ResultMismatch { expected: expected.result, actual: actual.result };
    }
    if actual.custom_error != expected.custom_error {
        return Verdict::CustomErrorMismatch {
            expected: expected.custom_error,
            actual: actual.custom_error,
        };
    }
    let ghost a = entries_view(actual.modified_accounts@);
    let ghost e = entries_view(expected.modified_accounts@);
    assert(e.skip(0) =~= e);
    let mut i: usize = 0;
    while i < expected.modified_accounts.len()
        invariant
            0 <= i <= expected.modified_accounts@.len(),
            actual.result == expected.result,
            actual.custom_error == expected.custom_error,
            a == entries_view(actual.modified_accounts@),
            e == entries_view(expected.modified_accounts@),
            first_account_mismatch(a, e) == first_account_mismatch(a, e.skip(i as int)),
        decreases expected.modified_accounts@.len() - i,
    {
        let (key, state) = (&expected.modified_accounts[i].0, &expected.modified_accounts[i].1);
        proof {
            assert(e.skip(i as int).drop_first() =~= e.skip(i + 1));
            assert(e.skip(i as int)[0] == (key@, state@));
        }
        let found = find_last(&actual.modified_accounts, key);
        proof {
            lemma_last_index_of(a, key@);
        }
        match found {
            Some(j) => {
                assert(a[j as int] == crate::account::entry_view(actual.modified_accounts@[j as int]));
                if !(actual.modified_accounts[j].1 == *state) {
                    proof {
                        assert(lookup(a, key@) == Some(a[j as int].1));
                        assert(a[j as int].1 != state@);
                        assert(e.skip(i as int).len() > 0);
                        assert(first_account_mismatch(a, e.skip(i as int)) == Some(key@));
                        assert(first_account_mismatch(a, e) == Some(key@));
                    }
                    return Verdict::AccountMismatch { address: *key };
                }
            },
            None => {},
        }
        i = i + 1;
    }
    assert(e.skip(i as int) =~= Seq::<(Seq<u8>, AccountView)>::empty());
    Verdict::Match
}

/// With no expected accounts, no account is ever reported, whatever the
/// observed accounts.
pub proof fn lemma_empty_expectation_accepts(actual: Seq<(Seq<u8>, AccountView)>)
    ensures
        first_account_mismatch(actual, Seq::empty()) is None,
{
}

/// An identity that the expected accounts do not name is never reported,
/// whatever state the observed accounts give it.
pub proof fn lemma_unexpected_accounts_ignored(
    actual: Seq<(Seq<u8>, AccountView)>,
    expected: Seq<(Seq<u8>, AccountView)>,
    key: Seq<u8>,
)
    requires
        !identities(expected).contains(key),
    ensures
        first_account_mismatch(actual, expected) != Some(key),
    decreases expected.len(),
{
    if expected.len() > 0 {
        assert(identities(expected)[0] == expected[0].0);
        assert(identities(expected.drop_first()) =~= identities(expected).drop_first());
        lemma_unexpected_accounts_ignored(actual, expected.drop_first(), key);
    }
}

/// Given observed accounts `A: x, B: y, C: z` and expected accounts
/// `A: x, B: y'` with `y' != y`, the comparison reports `B`, and so says
/// nothing of `C`.
pub proof fn lemma_partial_match(
    a: Seq<u8>,
    b: Seq<u8>,
    c: Seq<u8>,
    x: AccountView,
    y: AccountView,
    y2: AccountView,
    z: AccountView,
)
    requires
        a != b,
        a != c,
        b != c,
        y2 != y,
    ensures
        first_account_mismatch(seq![(a, x), (b, y), (c, z)], seq![(a, x), (b, y2)]) == Some(b),
{
    let actual = seq![(a, x), (b, y), (c, z)];
    let expected = seq![(a, x), (b, y2)];
    let ab = seq![(a, x), (b, y)];
    let only_a = seq![(a, x)];
    assert(actual.drop_last() =~= ab);
    assert(ab.drop_last() =~= only_a);
    assert(last_index_of(only_a, a) == Some(0int));
    assert(last_index_of(ab, a) == Some(0int));
    assert(last_index_of(actual, a) == Some(0int));
    assert(last_index_of(ab, b) == Some(1int));
    assert(last_index_of(actual, b) == Some(1int));
    assert(lookup(actual, a) == Some(x));
    assert(lookup(actual, b) == Some(y));
    let rest = seq![(b, y2)];
    assert(expected.drop_first() =~= rest);
    assert(rest.drop_first() =~= Seq::<(Seq<u8>, AccountView)>::empty());
    assert(first_account_mismatch(actual, rest) == Some(b));
}

} // verus!
