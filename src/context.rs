//! The validated context of one instruction invocation.

use vstd::prelude::*;
use crate::account::{
    account_from_wire, entries_view, wire_account_valid, wire_account_view, AccountState,
    WireAccount,
};
use crate::address::Address;
use crate::error::FixtureError;
use crate::sysvars::{
    slot_hashes_valid, is_default_sysvars, sysvars_from, wire_sysvars_error, FixtureSysvarContext, WireSysvars,
};

verus! {

/// The runtime features switched on for an invocation, each named by the
/// first eight bytes of its id read as a little-endian integer.
#[derive(Clone, Debug)]
pub struct FeatureSet {
    pub features: Vec<u64>,
}

impl FeatureSet {
    /// The set with no feature switched on.
    pub fn empty() -> (r: FeatureSet)
        ensures
            r.features@ == Seq::<u64>::empty(),
    {
        FeatureSet { features: Vec::new() }
    }

    /// Whether the feature named `id_prefix` is switched on.
    pub fn is_enabled(&self, id_prefix: u64) -> (r: bool)
        ensures
            r == self.features@.contains(id_prefix),
    {
        let mut i: usize = 0;
        while i < self.features.len()
            invariant
                0 <= i <= self.features@.len(),
                forall|j: int| 0 <= j < i ==> self.features@[j] != id_prefix,
            decreases self.features@.len() - i,
        {
            if self.features[i] == id_prefix {
                return true;
            }
            i = i + 1;
        }
        false
    }
}

/// A reference from the instruction to one of the context's accounts, already
/// resolved to that account's identity.
#[derive(Clone, Copy, Debug)]
pub struct InstructionAccount {
    pub index: usize,
    pub address: Address,
    pub is_signer: bool,
    pub is_writable: bool,
}

/// An instruction account reference as it arrives on the wire.
#[derive(Clone, Copy, Debug)]
pub struct WireInstructionAccount {
    pub index: u32,
    pub is_signer: bool,
    pub is_writable: bool,
}

/// The input context of a fixture as it arrives on the wire.
#[derive(Clone, Debug)]
pub struct WireContext {
    pub program_id: Vec<u8>,
    pub loader_id: Vec<u8>,
    pub feature_set: Option<Vec<u64>>,
    pub sysvars: Option<WireSysvars>,
    pub accounts: Vec<WireAccount>,
    pub instr_accounts: Vec<WireInstructionAccount>,
    pub data: Vec<u8>,
}

/// One instruction invocation before execution, validated.
#[derive(Debug)]
pub struct FixtureContext {
    pub program_id: Address,
    pub loader_id: Address,
    pub feature_set: FeatureSet,
    pub sysvar_context: FixtureSysvarContext,
    pub accounts: Vec<(Address, AccountState)>,
    pub instruction_accounts: Vec<InstructionAccount>,
    pub instruction_data: Vec<u8>,
}

impl FixtureContext {
    /// Every instruction account names an account of the context, and
    /// carries that account's identity.
    pub open spec fn wf(&self) -> bool {
        forall|i: int|
            0 <= i < self.instruction_accounts@.len() ==> {
                let r = #[trigger] self.instruction_accounts@[i];
                &&& r.index < self.accounts@.len()
                &&& r.address@ == self.accounts@[r.index as int].0@
            }
    }
}

impl FixtureContext {
    /// Checks that every instruction account names an account of the context
    /// and carries its identity.
    pub fn is_well_formed(&self) -> (r: bool)
        ensures
            r == self.wf(),
    {
        let mut i: usize = 0;
        while i < self.instruction_accounts.len()
            invariant
                0 <= i <= self.instruction_accounts@.len(),
                forall|j: int|
                    0 <= j < i ==> {
                        let r = #[trigger] self.instruction_accounts@[j];
                        &&& r.index < self.accounts@.len()
                        &&& r.address@ == self.accounts@[r.index as int].0@
                    },
            decreases self.instruction_accounts@.len() - i,
        {
            let r = self.instruction_accounts[i];
            if r.index >= self.accounts.len() || !(r.address == self.accounts[r.index].0) {
                return false;
            }
            i = i + 1;
        }
        true
    }
}

/// Every wire account carries 32-byte identities.
pub open spec fn wire_accounts_valid(v: Seq<WireAccount>) -> bool {
    forall|i: int| 0 <= i < v.len() ==> wire_account_valid(#[trigger] v[i])
}

/// Every wire instruction account names one of `n` accounts.
pub open spec fn instr_indices_valid(v: Seq<WireInstructionAccount>, n: nat) -> bool {
    forall|i: int| 0 <= i < v.len() ==> (#[trigger] v[i]).index < n
}

/// The first validation failure of a wire context, checking in turn the
/// program and loader ids, the sysvars, the accounts and the instruction
/// account references.
pub open spec fn wire_context_error(w: WireContext) -> Option<FixtureError> {
    let sysvars_error = match w.sysvars {
        Some(s) => wire_sysvars_error(s),
        None => None,
    };
    if w.program_id@.len() != 32 || w.loader_id@.len() != 32 {
        Some(FixtureError::InvalidPubkeyBytes)
    } else if sysvars_error is Some {
        sysvars_error
    } else if !wire_accounts_valid(w.accounts@) {
        Some(FixtureError::InvalidPubkeyBytes)
    } else if !instr_indices_valid(w.instr_accounts@, w.accounts@.len()) {
        Some(FixtureError::AccountMissing)
    } else {
        None
    }
}

/// The wire accounts as keyed mathematical values.
pub open spec fn wire_entries(v: Seq<WireAccount>) -> Seq<(Seq<u8>, crate::account::AccountView)> {
    v.map_values(|a: WireAccount| wire_account_view(a))
}

/// `c` is the context that the valid wire context `w` stands for.
pub open spec fn context_from(w: WireContext, c: FixtureContext) -> bool {
    &&& c.program_id@ == w.program_id@
    &&& c.loader_id@ == w.loader_id@
    &&& c.feature_set.features@ == match w.feature_set {
        Some(f) => f@,
        None => Seq::<u64>::empty(),
    }
    &&& match w.sysvars {
        Some(s) => sysvars_from(s, c.sysvar_context),
        None => is_default_sysvars(c.sysvar_context),
    }
    &&& entries_view(c.accounts@) == wire_entries(w.accounts@)
    &&& c.instruction_accounts@.len() == w.instr_accounts@.len()
    &&& forall|i: int|
        0 <= i < w.instr_accounts@.len() ==> {
            let r = #[trigger] c.instruction_accounts@[i];
            let x = w.instr_accounts@[i];
            &&& r.index == x.index
            &&& r.address@ == w.accounts@[x.index as int].address@
            &&& r.is_signer == x.is_signer
            &&& r.is_writable == x.is_writable
        }
    &&& c.instruction_data@ == w.data@
}

/// Validates the wire accounts in order.
pub fn accounts_from_wire(v: &Vec<WireAccount>) -> (r: Result<
    Vec<(Address, AccountState)>,
    FixtureError,
>)
    ensures
        match r {
            Ok(a) => wire_accounts_valid(v@) && entries_view(a@) == wire_entries(v@),
            Err(e) => !wire_accounts_valid(v@) && e == FixtureError::InvalidPubkeyBytes,
        },
{
    let mut accounts: Vec<(Address, AccountState)> = Vec::new();
    let mut i: usize = 0;
    while i < v.len()
        invariant
            0 <= i <= v@.len(),
            forall|j: int| 0 <= j < i ==> wire_account_valid(#[trigger] v@[j]),
            entries_view(accounts@) == wire_entries(v@.subrange(0, i as int)),
        decreases v@.len() - i,
    {
        let e = match account_from_wire(&v[i]) {
            Ok(e) => e,
            Err(err) => return Err(err),
        };
        let ghost prev = accounts@;
        accounts.push(e);
        proof {
            assert(entries_view(accounts@) =~= entries_view(prev).push(
                crate::account::entry_view(e),
            ));
            assert(wire_entries(v@.subrange(0, i + 1)) =~= wire_entries(
                v@.subrange(0, i as int),
            ).push(wire_account_view(v@[i as int])));
        }
        i = i + 1;
    }
    assert(v@.subrange(0, v@.len() as int) =~= v@);
    Ok(accounts)
}

/// Resolves the instruction account references against the accounts.
pub fn instruction_accounts_from_wire(
    refs: &Vec<WireInstructionAccount>,
    accounts: &Vec<(Address, AccountState)>,
) -> (r: Result<Vec<InstructionAccount>, FixtureError>)
    ensures
        match r {
            Ok(v) => instr_indices_valid(refs@, accounts@.len()) && v@.len() == refs@.len() && (
            forall|i: int|
                0 <= i < refs@.len() ==> {
                    let r = #[trigger] v@[i];
                    let x = refs@[i];
                    &&& r.index == x.index
                    &&& r.address == accounts@[x.index as int].0
                    &&& r.is_signer == x.is_signer
                    &&& r.is_writable == x.is_writable
                }),
            Err(e) => !instr_indices_valid(refs@, accounts@.len()) && e
                == FixtureError::AccountMissing,
        },
{
    let mut out: Vec<InstructionAccount> = Vec::new();
    let mut i: usize = 0;
    while i < refs.len()
        invariant
            0 <= i <= refs@.len(),
            out@.len() == i,
            forall|j: int| 0 <= j < i ==> (#[trigger] refs@[j]).index < accounts@.len(),
            forall|j: int|
                0 <= j < i ==> {
                    let r = #[trigger] out@[j];
                    let x = refs@[j];
                    &&& r.index == x.index
                    &&& r.address == accounts@[x.index as int].0
                    &&& r.is_signer == x.is_signer
                    &&& r.is_writable == x.is_writable
                },
        decreases refs@.len() - i,
    {
        let x = refs[i];
        let index = x.index as usize;
        if index >= accounts.len() {
            return Err(FixtureError::AccountMissing);
        }
        out.push(
            InstructionAccount {
                index,
                address: accounts[index].0,
                is_signer: x.is_signer,
                is_writable: x.is_writable,
            },
        );
        i = i + 1;
    }
    Ok(out)
}

impl FixtureContext {
    /// Validates a wire context in full: once a context exists, its
    /// identities are 32 bytes long, its sysvars complete and its
    /// instruction account references resolved.
    pub fn try_from_wire(w: WireContext) -> (r: Result<FixtureContext, FixtureError>)
        ensures
            match r {
                Ok(c) => wire_context_error(w) is None && context_from(w, c) && c.wf(),
                Err(e) => wire_context_error(w) == Some(e),
            },
    {
        let ghost wire = w;
        let program_id = match Address::from_bytes(&w.program_id) {
            Some(a) => a,
            None => return Err(FixtureError::InvalidPubkeyBytes),
        };
        let loader_id = match Address::from_bytes(&w.loader_id) {
            Some(a) => a,
            None => return Err(FixtureError::InvalidPubkeyBytes),
        };
        let feature_set = match w.feature_set {
            Some(f) => FeatureSet { features: f },
            None => FeatureSet::empty(),
        };
        let sysvar_context = match w.sysvars {
            Some(s) => match FixtureSysvarContext::try_from_wire(s) {
                Ok(c) => c,
                Err(e) => return Err(e),
            },
            None => FixtureSysvarContext::default(),
        };
        let accounts = match accounts_from_wire(&w.accounts) {
            Ok(a) => a,
            Err(e) => return Err(e),
        };
        assert(entries_view(accounts@).len() == accounts@.len());
        assert(accounts@.len() == w.accounts@.len());
        let instruction_accounts = match instruction_accounts_from_wire(
            &w.instr_accounts,
            &accounts,
        ) {
            Ok(v) => v,
            Err(e) => return Err(e),
        };
        proof {
            assert forall|i: int| 0 <= i < wire.instr_accounts@.len() implies (
            #[trigger] instruction_accounts@[i]).address@
                == wire.accounts@[wire.instr_accounts@[i].index as int].address@ by {
                let k = wire.instr_accounts@[i].index as int;
                assert(0 <= k < accounts@.len());
                assert(entries_view(accounts@)[k] == wire_entries(wire.accounts@)[k]);
                assert(entries_view(accounts@)[k].0 == accounts@[k].0@);
                assert(wire_entries(wire.accounts@)[k].0 == wire.accounts@[k].address@);
                assert(instruction_accounts@[i].address == accounts@[k].0);
            }
        }
        let c = FixtureContext {
            program_id,
            loader_id,
            feature_set,
            sysvar_context,
            accounts,
            instruction_accounts,
            instruction_data: w.data,
        };
        Ok(c)
    }
}

/// Some identity, owner or hash field of the wire context is not exactly
/// 32 bytes long.
pub open spec fn has_malformed_fixed_field(w: WireContext) -> bool {
    let bad_hashes = match w.sysvars {
        Some(s) => match s.slot_hashes {
            Some(v) => !slot_hashes_valid(v@),
            None => false,
        },
        None => false,
    };
    ||| w.program_id@.len() != 32
    ||| w.loader_id@.len() != 32
    ||| !wire_accounts_valid(w.accounts@)
    ||| bad_hashes
}

/// The burn percentage of the wire rent, where given, fits in 8 bits.
pub open spec fn rent_in_range(w: WireContext) -> bool {
    match w.sysvars {
        Some(s) => match s.rent {
            Some(r) => r.burn_percent <= 255,
            None => true,
        },
        None => true,
    }
}

/// A malformed identity, owner or hash always fails conversion, and with a
/// fixed-length error kind unless an out-of-range rent, checked first, is
/// reported instead.
pub proof fn lemma_fixed_length_enforced(w: WireContext)
    requires
        has_malformed_fixed_field(w),
    ensures
        wire_context_error(w) is Some,
        rent_in_range(w) ==> (wire_context_error(w) == Some(FixtureError::InvalidPubkeyBytes)
            || wire_context_error(w) == Some(FixtureError::InvalidHashBytes)),
{
}

/// An instruction account whose index is past the end of the accounts always
/// fails conversion.
pub proof fn lemma_dangling_reference_rejected(w: WireContext, i: int)
    requires
        0 <= i < w.instr_accounts@.len(),
        w.instr_accounts@[i].index >= w.accounts@.len(),
    ensures
        wire_context_error(w) is Some,
{
}

/// References up to the last account, that one included, never fail
/// conversion: a context valid in its other fields converts.
pub proof fn lemma_last_account_reference_accepted(w: WireContext)
    requires
        w.program_id@.len() == 32,
        w.loader_id@.len() == 32,
        match w.sysvars {
            Some(s) => wire_sysvars_error(s) is None,
            None => true,
        },
        wire_accounts_valid(w.accounts@),
        forall|i: int|
            0 <= i < w.instr_accounts@.len() ==> (#[trigger] w.instr_accounts@[i]).index
                <= w.accounts@.len() - 1,
    ensures
        wire_context_error(w) is None,
{
}

} // verus!
