//! Synthesis of the execution context: the program accounts that the runtime
//! expects ahead of the instruction's accounts, and the re-indexed account
//! references.

use vstd::prelude::*;
use crate::account::{AccountState, AccountView};
use crate::address::{
    native_loader_address, upgradeable_loader_address, upgradeable_loader_id, zero_address,
    Address,
};
use crate::context::{FixtureContext, InstructionAccount};
use crate::error::FixtureError;
use crate::sdk::{
    derived_program_address, find_program_address, le_bytes_u64, minimum_balance,
    rent_exempt_minimum, serialize_loader_state, ACCOUNT_STORAGE_OVERHEAD,
};
use crate::sysvars::Rent;

verus! {

/// The headers of upgradeable-loader accounts that synthesis writes.
#[derive(Clone, Copy, Debug)]
pub enum LoaderState {
    /// A program account, pointing at its program-data account.
    Program { programdata_address: Address },
    /// A program-data account; the program bytes follow the header.
    ProgramData { slot: u64, upgrade_authority_address: Option<Address> },
}


/// The rent-exempt balance of an account of `len` bytes can be computed in
/// 64 bits.
pub open spec fn balance_fits(rent: Rent, len: nat) -> bool {
    &&& ACCOUNT_STORAGE_OVERHEAD + len <= u64::MAX
    &&& (ACCOUNT_STORAGE_OVERHEAD + len) * rent.lamports_per_byte_year <= u64::MAX
}

/// The balance of a synthesized account of `len` bytes: the rent-exempt
/// minimum, and at least one lamport.
pub open spec fn funded_balance(rent: Rent, len: nat) -> u64 {
    let m = rent_exempt_minimum(rent.lamports_per_byte_year, rent.exemption_threshold_bits, len);
    if m < 1 {
        1
    } else {
        m
    }
}

/// The header of a synthesized program-data account: deployed at slot zero,
/// with the all-zero upgrade authority.
pub open spec fn programdata_header() -> Seq<u8> {
    seq![3u8, 0, 0, 0] + le_bytes_u64(0) + seq![1u8] + zero_address()
}

/// The data of a synthesized program account: the header that points at the
/// program-data account.
pub open spec fn program_header(programdata_address: Seq<u8>) -> Seq<u8> {
    seq![2u8, 0, 0, 0] + programdata_address
}

/// A synthesized account with the given data, owner and executable flag.
pub open spec fn synthesized_account(
    rent: Rent,
    data: Seq<u8>,
    owner: Seq<u8>,
    executable: bool,
) -> AccountView {
    AccountView {
        lamports: funded_balance(rent, data.len()),
        data,
        owner,
        executable,
        rent_epoch: 0,
    }
}

/// The program accounts synthesized ahead of the instruction's accounts.
///
/// Under the upgradeable loader: the program-data account, at the 32-byte
/// address derived from the program id, holding its header and the program bytes,
/// then the program account pointing at it. Under any other loader: one
/// executable account holding the program bytes. Every account is owned by
/// the loader and funded at its rent-exempt minimum.
pub open spec fn spec_program_accounts(
    program_id: Seq<u8>,
    loader_id: Seq<u8>,
    rent: Rent,
    elf: Seq<u8>,
) -> Result<Seq<(Seq<u8>, AccountView)>, FixtureError> {
    if loader_id == upgradeable_loader_address() {
        match derived_program_address(program_id, loader_id) {
            None => Err(FixtureError::AddressDerivationFailed),
            Some(pda) => if pda.len() != 32 {
                Err(FixtureError::AddressDerivationFailed)
            } else {
                let programdata = programdata_header() + elf;
                let program = program_header(pda);
                if !balance_fits(rent, programdata.len()) || !balance_fits(rent, program.len()) {
                    Err(FixtureError::BalanceOverflow)
                } else {
                    Ok(
                        seq![
                            (pda, synthesized_account(rent, programdata, loader_id, false)),
                            (program_id, synthesized_account(rent, program, loader_id, true)),
                        ],
                    )
                }
            },
        }
    } else if !balance_fits(rent, elf.len()) {
        Err(FixtureError::BalanceOverflow)
    } else {
        Ok(seq![(program_id, synthesized_account(rent, elf, loader_id, true))])
    }
}

/// Under the upgradeable loader, where the program id derives the address
/// `pda` and both balances fit in 64 bits, the synthesized accounts are the
/// program-data account at `pda`, holding its header then the program bytes,
/// followed by the program account, holding the header that points at `pda`:
/// program-data first, program last.
pub proof fn lemma_upgradeable_layout(
    program_id: Seq<u8>,
    rent: Rent,
    elf: Seq<u8>,
    pda: Seq<u8>,
)
    requires
        derived_program_address(program_id, upgradeable_loader_address()) == Some(pda),
        pda.len() == 32,
        balance_fits(rent, 45 + elf.len()),
        balance_fits(rent, 36),
    ensures
        spec_program_accounts(program_id, upgradeable_loader_address(), rent, elf) == Ok::<
            Seq<(Seq<u8>, AccountView)>,
            FixtureError,
        >(
            seq![
                (
                    pda,
                    synthesized_account(
                        rent,
                        programdata_header() + elf,
                        upgradeable_loader_address(),
                        false,
                    ),
                ),
                (
                    program_id,
                    synthesized_account(
                        rent,
                        program_header(pda),
                        upgradeable_loader_address(),
                        true,
                    ),
                ),
            ],
        ),
{
    assert(programdata_header().len() == 45);
    assert((programdata_header() + elf).len() == 45 + elf.len());
    assert(program_header(pda).len() == 36);
}

/// Under any other loader, where the balance fits in 64 bits, the one
/// synthesized account is the executable program account at the program id,
/// holding exactly the program bytes and owned by the loader.
pub proof fn lemma_other_loader_layout(
    program_id: Seq<u8>,
    loader_id: Seq<u8>,
    rent: Rent,
    elf: Seq<u8>,
)
    requires
        loader_id != upgradeable_loader_address(),
        balance_fits(rent, elf.len()),
    ensures
        spec_program_accounts(program_id, loader_id, rent, elf) == Ok::<
            Seq<(Seq<u8>, AccountView)>,
            FixtureError,
        >(
            seq![
                (
                    program_id,
                    AccountView {
                        lamports: funded_balance(rent, elf.len()),
                        data: elf,
                        owner: loader_id,
                        executable: true,
                        rent_epoch: 0,
                    },
                ),
            ],
        ),
{
}

/// The balance of a synthesized account of `data_len` bytes.
pub fn funded_balance_for(rent: &Rent, data_len: usize) -> (r: Result<u64, FixtureError>)
    ensures
        match r {
            Ok(b) => balance_fits(*rent, data_len as nat) && b == funded_balance(
                *rent,
                data_len as nat,
            ),
            Err(e) => !balance_fits(*rent, data_len as nat) && e == FixtureError::BalanceOverflow,
        },
{
    if data_len as u64 > u64::MAX - ACCOUNT_STORAGE_OVERHEAD {
        return Err(FixtureError::BalanceOverflow);
    }
    let n: u64 = ACCOUNT_STORAGE_OVERHEAD + data_len as u64;
    if n.checked_mul(rent.lamports_per_byte_year).is_none() {
        return Err(FixtureError::BalanceOverflow);
    }
    let m = minimum_balance(rent, data_len);
    if m < 1 {
        Ok(1)
    } else {
        Ok(m)
    }
}

/// Appends the bytes of `src` to `dst`.
pub fn append_bytes(dst: &mut Vec<u8>, src: &Vec<u8>)
    ensures
        final(dst)@ == old(dst)@ + src@,
{
    let mut i: usize = 0;
    while i < src.len()
        invariant
            0 <= i <= src@.len(),
            dst@ == old(dst)@ + src@.subrange(0, i as int),
        decreases src@.len() - i,
    {
        dst.push(src[i]);
        i = i + 1;
        assert(dst@ =~= old(dst)@ + src@.subrange(0, i as int));
    }
    assert(src@.subrange(0, src@.len() as int) =~= src@);
}

/// Creates the program accounts for a program, in the order the execution
/// context lists them: program-data first where present, program last.
pub fn program_accounts(
    program_id: &Address,
    loader_id: &Address,
    rent: &Rent,
    elf: &Vec<u8>,
) -> (r: Result<Vec<(Address, AccountState)>, FixtureError>)
    ensures
        match r {
            Ok(v) => spec_program_accounts(program_id@, loader_id@, *rent, elf@) == Ok::<
                Seq<(Seq<u8>, AccountView)>,
                FixtureError,
            >(crate::account::entries_view(v@)),
            Err(e) => spec_program_accounts(program_id@, loader_id@, *rent, elf@) == Err::<
                Seq<(Seq<u8>, AccountView)>,
                FixtureError,
            >(e),
        },
{
    let upgradeable = upgradeable_loader_id();
    let mut accounts: Vec<(Address, AccountState)> = Vec::new();
    if *loader_id == upgradeable {
        let programdata_address = match find_program_address(program_id, loader_id) {
            Some(a) => a,
            None => return Err(FixtureError::AddressDerivationFailed),
        };
        let header = LoaderState::ProgramData {
            slot: 0,
            upgrade_authority_address: Some(Address::zero()),
        };
        let mut programdata = serialize_loader_state(&header);
        append_bytes(&mut programdata, elf);
        let program = serialize_loader_state(
            &LoaderState::Program { programdata_address },
        );
        proof {
            assert(programdata@ =~= programdata_header() + elf@);
            assert(program@ =~= program_header(programdata_address@));
        }
        let programdata_lamports = funded_balance_for(rent, programdata.len())?;
        let program_lamports = funded_balance_for(rent, program.len())?;
        accounts.push(
            (
                programdata_address,
                AccountState {
                    lamports: programdata_lamports,
                    data: programdata,
                    owner: *loader_id,
                    executable: false,
                    rent_epoch: 0,
                },
            ),
        );
        accounts.push(
            (
                *program_id,
                AccountState {
                    lamports: program_lamports,
                    data: program,
                    owner: *loader_id,
                    executable: true,
                    rent_epoch: 0,
                },
            ),
        );
    } else {
        let lamports = funded_balance_for(rent, elf.len())?;
        accounts.push(
            (
                *program_id,
                AccountState {
                    lamports,
                    data: crate::account::copy_bytes(elf),
                    owner: *loader_id,
                    executable: true,
                    rent_epoch: 0,
                },
            ),
        );
    }
    proof {
        assert(crate::account::entries_view(accounts@) =~= spec_program_accounts(
            program_id@,
            loader_id@,
            *rent,
            elf@,
        )->Ok_0);
    }
    Ok(accounts)
}

/// A reference from the instruction to an account of the assembled list.
#[derive(Clone, Copy, Debug, PartialEq, Eq, Structural)]
pub struct AccountReference {
    /// The position of the account in the assembled list.
    pub index_in_transaction: usize,
    /// The position of the reference among the instruction's references, as
    /// the caller sees it; for the harness's single top-level instruction it
    /// equals the callee index.
    pub index_in_caller: usize,
    /// The position of the reference among the instruction's references.
    pub index_in_callee: usize,
    pub is_signer: bool,
    pub is_writable: bool,
}

/// The reference that the instruction account `a`, at `position` among the
/// instruction's references, becomes after `offset` accounts are prepended.
pub open spec fn shifted_reference(a: InstructionAccount, position: int, offset: nat) -> AccountReference {
    AccountReference {
        index_in_transaction: (a.index + offset) as usize,
        index_in_caller: position as usize,
        index_in_callee: position as usize,
        is_signer: a.is_signer,
        is_writable: a.is_writable,
    }
}

/// Everything the runtime needs besides the sysvars and features: the
/// assembled account list, the account references and the program to run.
#[derive(Debug)]
pub struct ExecutionPlan {
    /// The synthesized program accounts followed by the fixture's accounts.
    pub accounts: Vec<(Address, AccountState)>,
    /// The instruction's account references, re-indexed into `accounts`.
    pub instruction_accounts: Vec<AccountReference>,
    /// The position of the synthesized program account in `accounts`.
    pub program_index: usize,
    /// How many accounts synthesis prepended.
    pub synthesized: usize,
}

/// `p` is the plan for the context `ctx`, whose program accounts are `s`.
pub open spec fn plan_for(
    ctx: FixtureContext,
    s: Seq<(Seq<u8>, AccountView)>,
    p: ExecutionPlan,
) -> bool {
    &&& p.synthesized == s.len()
    &&& p.program_index == s.len() - 1
    &&& crate::account::entries_view(p.accounts@) == s + crate::account::entries_view(ctx.accounts@)
    &&& p.instruction_accounts@.len() == ctx.instruction_accounts@.len()
    &&& forall|i: int|
        0 <= i < ctx.instruction_accounts@.len() ==> #[trigger] p.instruction_accounts@[i]
            == shifted_reference(ctx.instruction_accounts@[i], i, s.len())
}

/// Re-indexes the instruction's account references past `offset` prepended
/// accounts; the caller and callee indices are each reference's own
/// position.
pub fn shift_references(refs: &Vec<InstructionAccount>, offset: usize, total: usize) -> (r: Vec<
    AccountReference,
>)
    requires
        forall|i: int| 0 <= i < refs@.len() ==> (#[trigger] refs@[i]).index + offset < total,
    ensures
        r@.len() == refs@.len(),
        forall|i: int|
            0 <= i < refs@.len() ==> #[trigger] r@[i] == shifted_reference(refs@[i], i, offset as nat),
{
    let mut out: Vec<AccountReference> = Vec::new();
    let mut i: usize = 0;
    while i < refs.len()
        invariant
            0 <= i <= refs@.len(),
            out@.len() == i,
            forall|j: int| 0 <= j < refs@.len() ==> (#[trigger] refs@[j]).index + offset < total,
            forall|j: int|
                0 <= j < i ==> #[trigger] out@[j] == shifted_reference(refs@[j], j, offset as nat),
        decreases refs@.len() - i,
    {
        let a = refs[i];
        let index = a.index + offset;
        out.push(
            AccountReference {
                index_in_transaction: index,
                index_in_caller: i,
                index_in_callee: i,
                is_signer: a.is_signer,
                is_writable: a.is_writable,
            },
        );
        i = i + 1;
    }
    out
}

/// Synthesizes the execution context of a validated fixture context: its
/// program accounts ahead of its own accounts, in their order, and its
/// account references shifted past the program accounts. The context itself
/// is left as it is.
pub fn synthesize(ctx: &FixtureContext, elf: &Vec<u8>) -> (r: Result<ExecutionPlan, FixtureError>)
    requires
        ctx.wf(),
    ensures
        match r {
            Ok(p) => spec_program_accounts(
                ctx.program_id@,
                ctx.loader_id@,
                ctx.sysvar_context.rent,
                elf@,
            ) matches Ok(s) && plan_for(*ctx, s, p),
            Err(e) => spec_program_accounts(
                ctx.program_id@,
                ctx.loader_id@,
                ctx.sysvar_context.rent,
                elf@,
            ) == Err::<Seq<(Seq<u8>, AccountView)>, FixtureError>(e),
        },
{
    let mut accounts = match program_accounts(
        &ctx.program_id,
        &ctx.loader_id,
        &ctx.sysvar_context.rent,
        elf,
    ) {
        Ok(v) => v,
        Err(e) => return Err(e),
    };
    let ghost synthesized_view = crate::account::entries_view(accounts@);
    let synthesized = accounts.len();
    let mut own = crate::account::copy_entries(&ctx.accounts);
    let ghost own_view = crate::account::entries_view(own@);
    let ghost prefix = accounts@;
    let ghost suffix = own@;
    accounts.append(&mut own);
    proof {
        assert(accounts@ == prefix + suffix);
        assert(crate::account::entries_view(accounts@) =~= synthesized_view + own_view);
        assert(accounts@.len() == synthesized + ctx.accounts@.len());
    }
    let instruction_accounts = shift_references(
        &ctx.instruction_accounts,
        synthesized,
        accounts.len(),
    );
    Ok(
        ExecutionPlan {
            accounts,
            instruction_accounts,
            program_index: synthesized - 1,
            synthesized,
        },
    )
}

} // verus!
