//! The builtin program registry: well-known program ids and their names.

use vstd::prelude::*;
use crate::account::AccountState;
use crate::address::{native_loader_address, native_loader_id, upgradeable_loader_address, zero_address, Address};
use crate::error::FixtureError;
use crate::synthesis::{balance_fits, funded_balance, funded_balance_for};
use crate::sysvars::Rent;

verus! {

/// The programs that the runtime implements natively.
#[derive(Clone, Copy, Debug, PartialEq, Eq, Structural)]
pub enum BuiltinProgram {
    System,
    Vote,
    Stake,
    Config,
    BpfLoaderDeprecated,
    BpfLoader,
    BpfLoaderUpgradeable,
    ComputeBudget,
    AddressLookupTable,
    ZkTokenProof,
    LoaderV4,
}

/// The id of a builtin program.
pub open spec fn builtin_address(b: BuiltinProgram) -> Seq<u8> {
    match b {
        BuiltinProgram::System => zero_address(),
        BuiltinProgram::Vote => seq![
            7u8, 97, 72, 29, 53, 116, 116, 187, 124, 77, 118, 36, 235, 211, 189, 179, 216, 53, 94,
            115, 209, 16, 67, 252, 13, 163, 83, 128, 0, 0, 0, 0,
        ],
        BuiltinProgram::Stake => seq![
            6u8, 161, 216, 23, 145, 55, 84, 42, 152, 52, 55, 189, 254, 42, 122, 178, 85, 127, 83,
            92, 138, 120, 114, 43, 104, 164, 157, 192, 0, 0, 0, 0,
        ],
        BuiltinProgram::Config => seq![
            3u8, 6, 74, 163, 0, 47, 116, 220, 200, 110, 67, 49, 15, 12, 5, 42, 248, 197, 218, 39,
            246, 16, 64, 25, 163, 35, 239, 160, 0, 0, 0, 0,
        ],
        BuiltinProgram::BpfLoaderDeprecated => seq![
            2u8, 168, 246, 145, 78, 136, 161, 107, 189, 35, 149, 133, 95, 100, 4, 217, 180, 244,
            86, 183, 130, 27, 176, 20, 87, 73, 66, 140, 0, 0, 0, 0,
        ],
        BuiltinProgram::BpfLoader => seq![
            2u8, 168, 246, 145, 78, 136, 161, 110, 57, 90, 225, 40, 148, 143, 250, 105, 86, 147,
            55, 104, 24, 221, 71, 67, 82, 33, 243, 198, 0, 0, 0, 0,
        ],
        BuiltinProgram::BpfLoaderUpgradeable => upgradeable_loader_address(),
        BuiltinProgram::ComputeBudget => seq![
            3u8, 6, 70, 111, 229, 33, 23, 50, 255, 236, 173, 186, 114, 195, 155, 231, 188, 140,
            229, 187, 197, 247, 18, 107, 44, 67, 155, 58, 64, 0, 0, 0,
        ],
        BuiltinProgram::AddressLookupTable => seq![
            2u8, 119, 166, 175, 151, 51, 155, 122, 200, 141, 24, 146, 201, 4, 70, 245, 0, 2, 48,
            146, 102, 246, 46, 83, 193, 24, 36, 73, 130, 0, 0, 0,
        ],
        BuiltinProgram::ZkTokenProof => seq![
            8u8, 99, 186, 141, 217, 196, 194, 251, 23, 74, 5, 203, 162, 126, 42, 44, 214, 35, 87,
            61, 121, 233, 11, 53, 181, 121, 252, 13, 0, 0, 0, 0,
        ],
        BuiltinProgram::LoaderV4 => seq![
            5u8, 18, 180, 17, 81, 81, 227, 122, 173, 10, 139, 197, 211, 136, 46, 123, 127, 218, 76,
            243, 210, 192, 40, 200, 207, 131, 54, 24, 0, 0, 0, 0,
        ],
    }
}

/// The name of a builtin program.
pub open spec fn builtin_label(b: BuiltinProgram) -> Seq<char> {
    match b {
        BuiltinProgram::System => "system_program"@,
        BuiltinProgram::Vote => "vote_program"@,
        BuiltinProgram::Stake => "stake_program"@,
        BuiltinProgram::Config => "config_program"@,
        BuiltinProgram::BpfLoaderDeprecated => "solana_bpf_loader_deprecated_program"@,
        BuiltinProgram::BpfLoader => "solana_bpf_loader_program"@,
        BuiltinProgram::BpfLoaderUpgradeable => "solana_bpf_loader_upgradeable_program"@,
        BuiltinProgram::ComputeBudget => "compute_budget_program"@,
        BuiltinProgram::AddressLookupTable => "address_lookup_table_program"@,
        BuiltinProgram::ZkTokenProof => "zk_token_proof_program"@,
        BuiltinProgram::LoaderV4 => "loader_v4"@,
    }
}

/// The registry, in the order the program cache is filled.
pub open spec fn builtin_table() -> Seq<BuiltinProgram> {
    seq![
        BuiltinProgram::System,
        BuiltinProgram::Vote,
        BuiltinProgram::Stake,
        BuiltinProgram::Config,
        BuiltinProgram::BpfLoaderDeprecated,
        BuiltinProgram::BpfLoader,
        BuiltinProgram::BpfLoaderUpgradeable,
        BuiltinProgram::ComputeBudget,
        BuiltinProgram::AddressLookupTable,
        BuiltinProgram::ZkTokenProof,
        BuiltinProgram::LoaderV4,
    ]
}

/// The name reported for an identity that the registry does not hold.
pub open spec fn unknown_builtin_label() -> Seq<char> {
    "unknown_builtin"@
}

/// The builtin registered under `id`, if any.
pub open spec fn builtin_for(id: Seq<u8>) -> Option<BuiltinProgram> {
    if exists|i: int| 0 <= i < builtin_table().len() && builtin_address(builtin_table()[i]) == id {
        Some(
            builtin_table()[choose|i: int|
                0 <= i < builtin_table().len() && builtin_address(builtin_table()[i]) == id],
        )
    } else {
        None
    }
}

/// The name that the registry gives `id`: the builtin's name, or
/// `unknown_builtin` for any other identity.
pub open spec fn builtin_name_of(id: Seq<u8>) -> Seq<char> {
    match builtin_for(id) {
        Some(b) => builtin_label(b),
        None => unknown_builtin_label(),
    }
}

/// An identity that no builtin of the registry has is named
/// `unknown_builtin`: looking it up never fails.
pub proof fn lemma_unknown_builtin_name(id: Seq<u8>)
    requires
        forall|i: int|
            0 <= i < builtin_table().len() ==> builtin_address(#[trigger] builtin_table()[i]) != id,
    ensures
        builtin_for(id) is None,
        builtin_name_of(id) == unknown_builtin_label(),
{
}

impl BuiltinProgram {
    /// The program's id.
    pub fn id(&self) -> (r: Address)
        ensures
            r@ == builtin_address(*self),
    {
        let bytes: [u8; 32] = match self {
            BuiltinProgram::System => [0u8; 32],
            BuiltinProgram::Vote => [
                7u8, 97, 72, 29, 53, 116, 116, 187, 124, 77, 118, 36, 235, 211, 189, 179, 216, 53,
                94, 115, 209, 16, 67, 252, 13, 163, 83, 128, 0, 0, 0, 0,
            ],
            BuiltinProgram::Stake => [
                6u8, 161, 216, 23, 145, 55, 84, 42, 152, 52, 55, 189, 254, 42, 122, 178, 85, 127,
                83, 92, 138, 120, 114, 43, 104, 164, 157, 192, 0, 0, 0, 0,
            ],
            BuiltinProgram::Config => [
                3u8, 6, 74, 163, 0, 47, 116, 220, 200, 110, 67, 49, 15, 12, 5, 42, 248, 197, 218,
                39, 246, 16, 64, 25, 163, 35, 239, 160, 0, 0, 0, 0,
            ],
            BuiltinProgram::BpfLoaderDeprecated => [
                2u8, 168, 246, 145, 78, 136, 161, 107, 189, 35, 149, 133, 95, 100, 4, 217, 180,
                244, 86, 183, 130, 27, 176, 20, 87, 73, 66, 140, 0, 0, 0, 0,
            ],
            BuiltinProgram::BpfLoader => [
                2u8, 168, 246, 145, 78, 136, 161, 110, 57, 90, 225, 40, 148, 143, 250, 105, 86,
                147, 55, 104, 24, 221, 71, 67, 82, 33, 243, 198, 0, 0, 0, 0,
            ],
            BuiltinProgram::BpfLoaderUpgradeable => [
                2u8, 168, 246, 145, 78, 136, 161, 176, 226, 16, 21, 62, 247, 99, 174, 43, 0, 194,
                185, 61, 22, 193, 36, 210, 192, 83, 122, 16, 4, 128, 0, 0,
            ],
            BuiltinProgram::ComputeBudget => [
                3u8, 6, 70, 111, 229, 33, 23, 50, 255, 236, 173, 186, 114, 195, 155, 231, 188, 140,
                229, 187, 197, 247, 18, 107, 44, 67, 155, 58, 64, 0, 0, 0,
            ],
            BuiltinProgram::AddressLookupTable => [
                2u8, 119, 166, 175, 151, 51, 155, 122, 200, 141, 24, 146, 201, 4, 70, 245, 0, 2,
                48, 146, 102, 246, 46, 83, 193, 24, 36, 73, 130, 0, 0, 0,
            ],
            BuiltinProgram::ZkTokenProof => [
                8u8, 99, 186, 141, 217, 196, 194, 251, 23, 74, 5, 203, 162, 126, 42, 44, 214, 35,
                87, 61, 121, 233, 11, 53, 181, 121, 252, 13, 0, 0, 0, 0,
            ],
            BuiltinProgram::LoaderV4 => [
                5u8, 18, 180, 17, 81, 81, 227, 122, 173, 10, 139, 197, 211, 136, 46, 123, 127, 218,
                76, 243, 210, 192, 40, 200, 207, 131, 54, 24, 0, 0, 0, 0,
            ],
        };
        let r = Address { bytes };
        assert(r@ =~= builtin_address(*self));
        r
    }

    /// The program's name.
    pub fn name(&self) -> (r: &'static str)
        ensures
            r@ == builtin_label(*self),
    {
        match self {
            BuiltinProgram::System => "system_program",
            BuiltinProgram::Vote => "vote_program",
            BuiltinProgram::Stake => "stake_program",
            BuiltinProgram::Config => "config_program",
            BuiltinProgram::BpfLoaderDeprecated => "solana_bpf_loader_deprecated_program",
            BuiltinProgram::BpfLoader => "solana_bpf_loader_program",
            BuiltinProgram::BpfLoaderUpgradeable => "solana_bpf_loader_upgradeable_program",
            BuiltinProgram::ComputeBudget => "compute_budget_program",
            BuiltinProgram::AddressLookupTable => "address_lookup_table_program",
            BuiltinProgram::ZkTokenProof => "zk_token_proof_program",
            BuiltinProgram::LoaderV4 => "loader_v4",
        }
    }
}

/// Every builtin program, in registry order.
pub fn builtins() -> (r: Vec<BuiltinProgram>)
    ensures
        r@ == builtin_table(),
{
    let r = vec![
        BuiltinProgram::System,
        BuiltinProgram::Vote,
        BuiltinProgram::Stake,
        BuiltinProgram::Config,
        BuiltinProgram::BpfLoaderDeprecated,
        BuiltinProgram::BpfLoader,
        BuiltinProgram::BpfLoaderUpgradeable,
        BuiltinProgram::ComputeBudget,
        BuiltinProgram::AddressLookupTable,
        BuiltinProgram::ZkTokenProof,
        BuiltinProgram::LoaderV4,
    ];
    assert(r@ =~= builtin_table());
    r
}

/// No two builtins share an id.
proof fn lemma_builtin_ids_distinct()
    ensures
        forall|i: int, j: int|
            0 <= i < j < builtin_table().len() ==> builtin_address(builtin_table()[i])
                != builtin_address(builtin_table()[j]),
{
    assert forall|i: int, j: int| 0 <= i < j < builtin_table().len() implies builtin_address(
        builtin_table()[i],
    ) != builtin_address(builtin_table()[j]) by {
        let a = builtin_address(builtin_table()[i]);
        let b = builtin_address(builtin_table()[j]);
        assert(a[0] != b[0] || a[6] != b[6] || a[7] != b[7] || a[1] != b[1]);
    }
}

/// Looks up the builtin registered under `id`.
pub fn find_builtin(id: &Address) -> (r: Option<BuiltinProgram>)
    ensures
        r == builtin_for(id@),
{
    let table = builtins();
    let mut i: usize = 0;
    while i < table.len()
        invariant
            0 <= i <= table@.len(),
            table@ == builtin_table(),
            forall|j: int| 0 <= j < i ==> builtin_address(table@[j]) != id@,
        decreases table@.len() - i,
    {
        let b = table[i];
        if b.id() == *id {
            proof {
                lemma_builtin_ids_distinct();
                let k = choose|k: int|
                    0 <= k < builtin_table().len() && builtin_address(builtin_table()[k]) == id@;
                assert(k == i);
            }
            return Some(b);
        }
        i = i + 1;
    }
    None
}

/// The name of the builtin registered under `id`, or `unknown_builtin`:
/// looking up an identity never fails.
pub fn builtin_name(id: &Address) -> (r: &'static str)
    ensures
        r@ == builtin_name_of(id@),
        builtin_for(id@) is None ==> r@ == unknown_builtin_label(),
{
    match find_builtin(id) {
        Some(b) => b.name(),
        None => "unknown_builtin",
    }
}

/// The bytes of an ASCII string.
pub fn ascii_bytes(s: &str) -> (r: Vec<u8>)
    requires
        s.is_ascii(),
    ensures
        r@ == s@.map_values(|c: char| c as u8),
{
    let b = s.as_bytes();
    proof {
        vstd::string::is_ascii_spec_bytes(s);
    }
    let mut r: Vec<u8> = Vec::new();
    let mut i: usize = 0;
    while i < b.len()
        invariant
            0 <= i <= b@.len(),
            b@ == s@.map_values(|c: char| c as u8),
            r@ == b@.subrange(0, i as int),
        decreases b@.len() - i,
    {
        r.push(b[i]);
        i = i + 1;
    }
    assert(r@ =~= b@);
    r
}

/// The account of a builtin program: executable, owned by the native loader,
/// holding the program's name (any non-empty data will do), at the
/// rent-exempt minimum balance.
pub fn builtin_program_account(program_id: &Address, rent: &Rent) -> (r: Result<
    Vec<(Address, AccountState)>,
    FixtureError,
>)
    ensures
        ({
            let data = builtin_name_of(program_id@).map_values(|c: char| c as u8);
            match r {
                Ok(v) => balance_fits(*rent, data.len()) && crate::account::entries_view(v@)
                    == seq![
                    (
                        program_id@,
                        crate::account::AccountView {
                            lamports: funded_balance(*rent, data.len()),
                            data,
                            owner: native_loader_address(),
                            executable: true,
                            rent_epoch: 0,
                        },
                    ),
                ],
                Err(e) => !balance_fits(*rent, data.len()) && e == FixtureError::BalanceOverflow,
            }
        }),
{
    let name = builtin_name(program_id);
    proof {
        reveal_strlit("system_program");
        reveal_strlit("vote_program");
        reveal_strlit("stake_program");
        reveal_strlit("config_program");
        reveal_strlit("solana_bpf_loader_deprecated_program");
        reveal_strlit("solana_bpf_loader_program");
        reveal_strlit("solana_bpf_loader_upgradeable_program");
        reveal_strlit("compute_budget_program");
        reveal_strlit("address_lookup_table_program");
        reveal_strlit("zk_token_proof_program");
        reveal_strlit("loader_v4");
        reveal_strlit("unknown_builtin");
    }
    let data = ascii_bytes(name);
    let lamports = match funded_balance_for(rent, data.len()) {
        Ok(l) => l,
        Err(e) => return Err(e),
    };
    let mut v: Vec<(Address, AccountState)> = Vec::new();
    v.push(
        (
            *program_id,
            AccountState { lamports, data, owner: native_loader_id(), executable: true, rent_epoch: 0 },
        ),
    );
    assert(crate::account::entries_view(v@) =~= seq![
        (
            program_id@,
            crate::account::AccountView {
                lamports,
                data: builtin_name_of(program_id@).map_values(|c: char| c as u8),
                owner: native_loader_address(),
                executable: true,
                rent_epoch: 0,
            },
        ),
    ]);
    Ok(v)
}

} // verus!
