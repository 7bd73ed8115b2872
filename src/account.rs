//! Account states and their wire form.

use vstd::prelude::*;
use crate::address::{Address, ADDRESS_LEN};
use crate::error::FixtureError;

verus! {

/// The state of one account: balance, data, owner and flags.
#[derive(Clone, Debug)]
pub struct AccountState {
    pub lamports: u64,
    pub data: Vec<u8>,
    pub owner: Address,
    pub executable: bool,
    pub rent_epoch: u64,
}

/// The mathematical value of an [`AccountState`].
pub struct AccountView {
    pub lamports: u64,
    pub data: Seq<u8>,
    pub owner: Seq<u8>,
    pub executable: bool,
    pub rent_epoch: u64,
}

impl View for AccountState {
    type V = AccountView;

    open spec fn view(&self) -> AccountView {
        AccountView {
            lamports: self.lamports,
            data: self.data@,
            owner: self.owner@,
            executable: self.executable,
            rent_epoch: self.rent_epoch,
        }
    }
}

/// An account keyed by its identity, as a pair of mathematical values.
pub open spec fn entry_view(e: (Address, AccountState)) -> (Seq<u8>, AccountView) {
    (e.0@, e.1@)
}

/// A list of keyed accounts, as mathematical values.
pub open spec fn entries_view(v: Seq<(Address, AccountState)>) -> Seq<(Seq<u8>, AccountView)> {
    v.map_values(|e: (Address, AccountState)| entry_view(e))
}

/// The identities of a list of keyed accounts, in order.
pub open spec fn identities(v: Seq<(Seq<u8>, AccountView)>) -> Seq<Seq<u8>> {
    v.map_values(|e: (Seq<u8>, AccountView)| e.0)
}

/// Equality of two data buffers, element by element.
pub fn bytes_equal(a: &Vec<u8>, b: &Vec<u8>) -> (r: bool)
    ensures
        r == (a@ == b@),
{
    if a.len() != b.len() {
        return false;
    }
    let mut i: usize = 0;
    while i < a.len()
        invariant
            0 <= i <= a@.len(),
            a@.len() == b@.len(),
            forall|j: int| 0 <= j < i ==> a@[j] == b@[j],
        decreases a@.len() - i,
    {
        if a[i] != b[i] {
            return false;
        }
        i = i + 1;
    }
    assert(a@ =~= b@);
    true
}

/// A copy of a data buffer.
pub fn copy_bytes(a: &Vec<u8>) -> (r: Vec<u8>)
    ensures
        r@ == a@,
{
    let mut r: Vec<u8> = Vec::new();
    let mut i: usize = 0;
    while i < a.len()
        invariant
            0 <= i <= a@.len(),
            r@ == a@.subrange(0, i as int),
        decreases a@.len() - i,
    {
        r.push(a[i]);
        i = i + 1;
    }
    assert(r@ =~= a@);
    r
}

impl PartialEq for AccountState {
    fn eq(&self, other: &AccountState) -> (r: bool) {
        let same_data = bytes_equal(&self.data, &other.data);
        let same_owner = self.owner == other.owner;
        self.lamports == other.lamports && same_data && same_owner && self.executable
            == other.executable && self.rent_epoch == other.rent_epoch
    }
}

impl vstd::std_specs::cmp::PartialEqSpecImpl for AccountState {
    open spec fn obeys_eq_spec() -> bool {
        true
    }

    open spec fn eq_spec(&self, other: &AccountState) -> bool {
        self@ == other@
    }
}

impl Eq for AccountState {}

impl AccountState {
    /// A copy of the state with the same value.
    pub fn duplicate(&self) -> (r: AccountState)
        ensures
            r@ == self@,
    {
        AccountState {
            lamports: self.lamports,
            data: copy_bytes(&self.data),
            owner: self.owner,
            executable: self.executable,
            rent_epoch: self.rent_epoch,
        }
    }
}

/// A copy of a list of keyed accounts.
pub fn copy_entries(v: &Vec<(Address, AccountState)>) -> (r: Vec<(Address, AccountState)>)
    ensures
        entries_view(r@) == entries_view(v@),
{
    let mut r: Vec<(Address, AccountState)> = Vec::new();
    let mut i: usize = 0;
    while i < v.len()
        invariant
            0 <= i <= v@.len(),
            entries_view(r@) == entries_view(v@.subrange(0, i as int)),
        decreases v@.len() - i,
    {
        let e = (v[i].0, v[i].1.duplicate());
        let ghost prev = r@;
        r.push(e);
        proof {
            assert(v@.subrange(0, i + 1) =~= v@.subrange(0, i as int).push(v@[i as int]));
            assert(entries_view(r@) =~= entries_view(prev).push(entry_view(e)));
            assert(entries_view(v@.subrange(0, i + 1)) =~= entries_view(
                v@.subrange(0, i as int),
            ).push(entry_view(v@[i as int])));
        }
        i = i + 1;
    }
    assert(v@.subrange(0, v@.len() as int) =~= v@);
    r
}

/// An account state as it arrives on the wire: identities are still raw
/// byte strings of any length.
#[derive(Clone, Debug)]
pub struct WireAccount {
    pub address: Vec<u8>,
    pub owner: Vec<u8>,
    pub lamports: u64,
    pub data: Vec<u8>,
    pub executable: bool,
    pub rent_epoch: u64,
}

/// A wire account is valid when its identity and owner are 32 bytes long.
pub open spec fn wire_account_valid(w: WireAccount) -> bool {
    w.address@.len() == ADDRESS_LEN && w.owner@.len() == ADDRESS_LEN
}

/// The keyed account that a valid wire account stands for.
pub open spec fn wire_account_view(w: WireAccount) -> (Seq<u8>, AccountView) {
    (
        w.address@,
        AccountView {
            lamports: w.lamports,
            data: w.data@,
            owner: w.owner@,
            executable: w.executable,
            rent_epoch: w.rent_epoch,
        },
    )
}

/// Validates a wire account: both identities must be exactly 32 bytes.
pub fn account_from_wire(w: &WireAccount) -> (r: Result<(Address, AccountState), FixtureError>)
    ensures
        match r {
            Ok(e) => wire_account_valid(*w) && entry_view(e) == wire_account_view(*w),
            Err(err) => !wire_account_valid(*w) && err == FixtureError::InvalidPubkeyBytes,
        },
{
    let address = match Address::from_bytes(&w.address) {
        Some(a) => a,
        None => return Err(FixtureError::InvalidPubkeyBytes),
    };
    let owner = match Address::from_bytes(&w.owner) {
        Some(a) => a,
        None => return Err(FixtureError::InvalidPubkeyBytes),
    };
    let account = AccountState {
        lamports: w.lamports,
        data: copy_bytes(&w.data),
        owner,
        executable: w.executable,
        rent_epoch: w.rent_epoch,
    };
    Ok((address, account))
}

/// Equality of two lists of keyed accounts, entry by entry.
pub fn entries_equal(a: &Vec<(Address, AccountState)>, b: &Vec<(Address, AccountState)>) -> (r:
    bool)
    ensures
        r == (entries_view(a@) == entries_view(b@)),
{
    if a.len() != b.len() {
        assert(entries_view(a@).len() != entries_view(b@).len());
        return false;
    }
    let mut i: usize = 0;
    while i < a.len()
        invariant
            0 <= i <= a@.len(),
            a@.len() == b@.len(),
            forall|j: int| 0 <= j < i ==> entry_view(a@[j]) == entry_view(b@[j]),
        decreases a@.len() - i,
    {
        if !(a[i].0 == b[i].0) || !(a[i].1 == b[i].1) {
            assert(entries_view(a@)[i as int] != entries_view(b@)[i as int]);
            return false;
        }
        i = i + 1;
    }
    assert(entries_view(a@) =~= entries_view(b@));
    true
}

} // verus!
