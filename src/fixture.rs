//! A fixture: an input context paired with the effects it is expected to
//! produce.

use vstd::prelude::*;
use crate::context::{context_from, wire_context_error, FixtureContext, WireContext};
use crate::effects::{EffectsView, FixtureEffects, WireEffects};
use crate::context::{wire_accounts_valid, wire_entries};
use crate::error::FixtureError;

verus! {

/// A recorded (input, expected output) pair.
#[derive(Debug)]
pub struct Fixture {
    pub input: FixtureContext,
    pub output: FixtureEffects,
}

/// A fixture as it arrives on the wire: both parts may be missing.
#[derive(Clone, Debug)]
pub struct WireFixture {
    pub input: Option<WireContext>,
    pub output: Option<WireEffects>,
}

/// The first failure of a wire fixture: a missing input, an invalid input,
/// a missing output, then an invalid output.
pub open spec fn wire_fixture_error(w: WireFixture) -> Option<FixtureError> {
    match w.input {
        None => Some(FixtureError::InvalidFixtureInput),
        Some(i) => if wire_context_error(i) is Some {
            wire_context_error(i)
        } else {
            match w.output {
                None => Some(FixtureError::InvalidFixtureOutput),
                Some(o) => if !wire_accounts_valid(o.modified_accounts@) {
                    Some(FixtureError::InvalidPubkeyBytes)
                } else {
                    None
                },
            }
        },
    }
}

impl Fixture {
    /// Validates a wire fixture: both parts must be present and valid.
    pub fn try_from_wire(w: WireFixture) -> (r: Result<Fixture, FixtureError>)
        ensures
            match r {
                Ok(f) => wire_fixture_error(w) is None && f.input.wf() && context_from(
                    w.input->Some_0,
                    f.input,
                ) && f.output@ == (EffectsView {
                    result: w.output->Some_0.result,
                    custom_error: w.output->Some_0.custom_error,
                    modified_accounts: wire_entries(w.output->Some_0.modified_accounts@),
                }),
                Err(e) => wire_fixture_error(w) == Some(e),
            },
    {
        let input = match w.input {
            Some(i) => match FixtureContext::try_from_wire(i) {
                Ok(c) => c,
                Err(e) => return Err(e),
            },
            None => return Err(FixtureError::InvalidFixtureInput),
        };
        let output = match &w.output {
            Some(o) => match FixtureEffects::try_from_wire(o) {
                Ok(e) => e,
                Err(e) => return Err(e),
            },
            None => return Err(FixtureError::InvalidFixtureOutput),
        };
        Ok(Fixture { input, output })
    }
}

} // verus!
