//! The instruction format of the test program that the harness replays
//! fixtures against.

use vstd::prelude::*;
use solana_program::program_error::ProgramError;

verus! {

/// The instructions of the test program, each introduced by a one-byte tag.
#[derive(Clone, Copy, Debug, PartialEq, Eq)]
pub enum TestProgramInstruction {
    /// No-op. Do nothing.
    /// 0. `[]` Some program-owned account.
    /// 1. `[]` Another program-owned account.
    NoOp,
    /// Write some data to an initialized account.
    /// 0. `[writable]` The program-owned account to write to.
    WriteData { data: [u8; 4] },
    /// Write the clock's current slot to an initialized account.
    /// 0. `[writable]` The program-owned account to write to.
    WriteClockData,
    /// Close an account by moving all its lamports to the destination and
    /// clearing its data.
    /// 0. `[writable]` The account to close.
    /// 1. `[writable]` The destination account.
    CloseAccount,
    /// Transfer lamports between two program-owned accounts.
    /// 0. `[writable]` The program-owned sender.
    /// 1. `[writable]` The program-owned recipient.
    Transfer { amount: u64 },
    /// Transfer lamports between two system accounts through the system
    /// program.
    /// 0. `[writable]` The system account sender.
    /// 1. `[writable]` The system account recipient.
    /// 2. `[]`         The System program.
    TransferWithCpi { amount: u64 },
}

/// The little-endian value of eight bytes.
pub open spec fn le_u64(b: Seq<u8>) -> nat {
    (b[0] + 256 * (b[1] + 256 * (b[2] + 256 * (b[3] + 256 * (b[4] + 256 * (b[5] + 256 * (b[6]
        + 256 * b[7]))))))) as nat
}

/// Whether `input` is an instruction of the test program: a known tag,
/// followed by at least the bytes its fields need.
pub open spec fn decodable(input: Seq<u8>) -> bool {
    &&& input.len() >= 1
    &&& {
        let tag = input[0];
        ||| tag == 0 || tag == 2 || tag == 3
        ||| tag == 1 && input.len() >= 5
        ||| (tag == 4 || tag == 5) && input.len() >= 9
    }
}

/// `i` is the instruction that `input` encodes; bytes past the fields are
/// ignored.
pub open spec fn decodes_to(input: Seq<u8>, i: TestProgramInstruction) -> bool {
    &&& input.len() >= 1
    &&& match i {
        TestProgramInstruction::NoOp => input[0] == 0,
        TestProgramInstruction::WriteData { data } => input[0] == 1 && input.len() >= 5 && data@
            == input.subrange(1, 5),
        TestProgramInstruction::WriteClockData => input[0] == 2,
        TestProgramInstruction::CloseAccount => input[0] == 3,
        TestProgramInstruction::Transfer { amount } => input[0] == 4 && input.len() >= 9 && amount
            == le_u64(input.subrange(1, 9)),
        TestProgramInstruction::TransferWithCpi { amount } => input[0] == 5 && input.len() >= 9
            && amount == le_u64(input.subrange(1, 9)),
    }
}

/// Reads a little-endian `u64` from the eight bytes at `start`.
pub fn read_le_u64(input: &[u8], start: usize) -> (r: u64)
    requires
        start + 8 <= input@.len(),
    ensures
        r == le_u64(input@.subrange(start as int, start + 8)),
{
    let b0 = input[start] as u64;
    let b1 = input[start + 1] as u64;
    let b2 = input[start + 2] as u64;
    let b3 = input[start + 3] as u64;
    let b4 = input[start + 4] as u64;
    let b5 = input[start + 5] as u64;
    let b6 = input[start + 6] as u64;
    let b7 = input[start + 7] as u64;
    b0 + 256 * (b1 + 256 * (b2 + 256 * (b3 + 256 * (b4 + 256 * (b5 + 256 * (b6 + 256 * b7))))))
}

impl TestProgramInstruction {
    /// Decodes an instruction of the test program.
    pub fn unpack(input: &[u8]) -> (r: Result<TestProgramInstruction, ProgramError>)
        ensures
            match r {
                Ok(i) => decodes_to(input@, i),
                Err(e) => !decodable(input@) && e == ProgramError::InvalidInstructionData,
            },
    {
        if input.len() == 0 {
            return Err(ProgramError::InvalidInstructionData);
        }
        let tag = input[0];
        if tag == 0 {
            Ok(TestProgramInstruction::NoOp)
        } else if tag == 1 {
            if input.len() < 5 {
                return Err(ProgramError::InvalidInstructionData);
            }
            let data: [u8; 4] = [input[1], input[2], input[3], input[4]];
            assert(data@ =~= input@.subrange(1, 5));
            Ok(TestProgramInstruction::WriteData { data })
        } else if tag == 2 {
            Ok(TestProgramInstruction::WriteClockData)
        } else if tag == 3 {
            Ok(TestProgramInstruction::CloseAccount)
        } else if tag == 4 || tag == 5 {
            if input.len() < 9 {
                return Err(ProgramError::InvalidInstructionData);
            }
            let amount = read_le_u64(input, 1);
            if tag == 4 {
                Ok(TestProgramInstruction::Transfer { amount })
            } else {
                Ok(TestProgramInstruction::TransferWithCpi { amount })
            }
        } else {
            Err(ProgramError::InvalidInstructionData)
        }
    }
}

} // verus!
