//! 32-byte identities: account addresses, owners and program ids.

use vstd::prelude::*;

verus! {

/// The length in bytes of every identity.
pub const ADDRESS_LEN: usize = 32;

/// A 32-byte account identity.
#[derive(Clone, Copy, Debug)]
pub struct Address {
    pub bytes: [u8; 32],
}

impl View for Address {
    type V = Seq<u8>;

    open spec fn view(&self) -> Seq<u8> {
        self.bytes@
    }
}

impl PartialEq for Address {
    fn eq(&self, other: &Address) -> (r: bool) {
        let mut i: usize = 0;
        while i < ADDRESS_LEN
            invariant
                0 <= i <= ADDRESS_LEN,
                self@.len() == ADDRESS_LEN,
                other@.len() == ADDRESS_LEN,
                forall|j: int| 0 <= j < i ==> self@[j] == other@[j],
            decreases ADDRESS_LEN - i,
        {
            if self.bytes[i] != other.bytes[i] {
                return false;
            }
            i = i + 1;
        }
        assert(self@ =~= other@);
        true
    }
}

impl vstd::std_specs::cmp::PartialEqSpecImpl for Address {
    open spec fn obeys_eq_spec() -> bool {
        true
    }

    open spec fn eq_spec(&self, other: &Address) -> bool {
        self@ == other@
    }
}

impl Eq for Address {}

impl Address {
    /// Wraps 32 bytes as an identity.
    pub fn new(bytes: [u8; 32]) -> (r: Address)
        ensures
            r@ == bytes@,
    {
        Address { bytes }
    }

    /// The identity whose bytes are `v`, or `None` where `v` is not exactly
    /// 32 bytes long.
    pub fn from_bytes(v: &Vec<u8>) -> (r: Option<Address>)
        ensures
            r is Some <==> v@.len() == ADDRESS_LEN,
            r matches Some(a) ==> a@ == v@,
    {
        if v.len() != ADDRESS_LEN {
            return None;
        }
        let mut bytes = [0u8; 32];
        let mut i: usize = 0;
        while i < ADDRESS_LEN
            invariant
                0 <= i <= ADDRESS_LEN,
                v@.len() == ADDRESS_LEN,
                bytes@.len() == ADDRESS_LEN,
                forall|j: int| 0 <= j < i ==> bytes@[j] == v@[j],
            decreases ADDRESS_LEN - i,
        {
            bytes[i] = v[i];
            i = i + 1;
        }
        assert(bytes@ =~= v@);
        Some(Address { bytes })
    }

    /// The all-zero identity.
    pub fn zero() -> (r: Address)
        ensures
            r@ == zero_address(),
    {
        let r = Address { bytes: [0u8; 32] };
        assert(r@ =~= zero_address());
        r
    }
}

/// The all-zero identity, which is also the system program's id.
pub open spec fn zero_address() -> Seq<u8> {
    Seq::new(32, |i: int| 0u8)
}

/// `BPFLoaderUpgradeab1e11111111111111111111111`.
pub open spec fn upgradeable_loader_address() -> Seq<u8> {
    seq![
        2u8, 168, 246, 145, 78, 136, 161, 176, 226, 16, 21, 62, 247, 99, 174, 43, 0, 194, 185, 61,
        22, 193, 36, 210, 192, 83, 122, 16, 4, 128, 0, 0,
    ]
}

/// `NativeLoader1111111111111111111111111111111`.
pub open spec fn native_loader_address() -> Seq<u8> {
    seq![
        5u8, 135, 132, 191, 20, 139, 164, 40, 47, 176, 18, 87, 72, 136, 169, 241, 83, 160, 125,
        173, 247, 101, 192, 69, 92, 154, 151, 3, 128, 0, 0, 0,
    ]
}

/// The id of the upgradeable BPF loader.
pub fn upgradeable_loader_id() -> (r: Address)
    ensures
        r@ == upgradeable_loader_address(),
{
    let r = Address {
        bytes: [
            2u8, 168, 246, 145, 78, 136, 161, 176, 226, 16, 21, 62, 247, 99, 174, 43, 0, 194, 185,
            61, 22, 193, 36, 210, 192, 83, 122, 16, 4, 128, 0, 0,
        ],
    };
    assert(r@ =~= upgradeable_loader_address());
    r
}

/// The id of the native loader, which owns every builtin program account.
pub fn native_loader_id() -> (r: Address)
    ensures
        r@ == native_loader_address(),
{
    let r = Address {
        bytes: [
            5u8, 135, 132, 191, 20, 139, 164, 40, 47, 176, 18, 87, 72, 136, 169, 241, 83, 160, 125,
            173, 247, 101, 192, 69, 92, 154, 151, 3, 128, 0, 0, 0,
        ],
    };
    assert(r@ =~= native_loader_address());
    r
}

} // verus!
