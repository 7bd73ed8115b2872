//! The observed or expected effects of executing one instruction.

use vstd::prelude::*;
use crate::account::{entries_equal, entries_view, AccountState, AccountView, WireAccount};
use crate::address::Address;
use crate::context::{accounts_from_wire, wire_accounts_valid, wire_entries};
use crate::error::FixtureError;

verus! {

/// Status, error code and modified accounts after an execution.
#[derive(Debug)]
pub struct FixtureEffects {
    /// `0` on success, non-zero (by convention `-1`) on failure.
    pub result: i32,
    /// The program error code of a failure; `0` on success.
    pub custom_error: u64,
    /// The accounts whose state the comparison checks.
    pub modified_accounts: Vec<(Address, AccountState)>,
}

/// The mathematical value of [`FixtureEffects`].
pub struct EffectsView {
    pub result: i32,
    pub custom_error: u64,
    pub modified_accounts: Seq<(Seq<u8>, AccountView)>,
}

impl View for FixtureEffects {
    type V = EffectsView;

    open spec fn view(&self) -> EffectsView {
        EffectsView {
            result: self.result,
            custom_error: self.custom_error,
            modified_accounts: entries_view(self.modified_accounts@),
        }
    }
}

impl PartialEq for FixtureEffects {
    fn eq(&self, other: &FixtureEffects) -> (r: bool) {
        let same_accounts = entries_equal(&self.modified_accounts, &other.modified_accounts);
        self.result == other.result && self.custom_error == other.custom_error && same_accounts
    }
}

impl vstd::std_specs::cmp::PartialEqSpecImpl for FixtureEffects {
    open spec fn obeys_eq_spec() -> bool {
        true
    }

    open spec fn eq_spec(&self, other: &FixtureEffects) -> bool {
        self@ == other@
    }
}

impl Eq for FixtureEffects {}

/// Effects as they arrive on the wire.
#[derive(Clone, Debug)]
pub struct WireEffects {
    pub result: i32,
    pub custom_error: u64,
    pub modified_accounts: Vec<WireAccount>,
}

impl FixtureEffects {
    /// Validates wire effects: every account identity must be 32 bytes.
    pub fn try_from_wire(w: &WireEffects) -> (r: Result<FixtureEffects, FixtureError>)
        ensures
            match r {
                Ok(e) => wire_accounts_valid(w.modified_accounts@) && e@ == (EffectsView {
                    result: w.result,
                    custom_error: w.custom_error,
                    modified_accounts: wire_entries(w.modified_accounts@),
                }),
                Err(e) => !wire_accounts_valid(w.modified_accounts@) && e
                    == FixtureError::InvalidPubkeyBytes,
            },
    {
        let modified_accounts = match accounts_from_wire(&w.modified_accounts) {
            Ok(a) => a,
            Err(e) => return Err(e),
        };
        Ok(FixtureEffects { result: w.result, custom_error: w.custom_error, modified_accounts })
    }
}

} // verus!
