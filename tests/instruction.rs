use protosol::instruction::TestProgramInstruction;
use solana_program::program_error::ProgramError;

#[test]
fn unpack_each_instruction() {
    assert_eq!(TestProgramInstruction::unpack(&[0]), Ok(TestProgramInstruction::NoOp));
    assert_eq!(TestProgramInstruction::unpack(&[1, 2, 3, 4, 5, 6]), Ok(TestProgramInstruction::WriteData { data: [2, 3, 4, 5] }));
    assert_eq!(TestProgramInstruction::unpack(&[2]), Ok(TestProgramInstruction::WriteClockData));
    assert_eq!(TestProgramInstruction::unpack(&[3, 9]), Ok(TestProgramInstruction::CloseAccount));
    let mut transfer = vec![4u8];
    transfer.extend_from_slice(&42_000u64.to_le_bytes());
    assert_eq!(TestProgramInstruction::unpack(&transfer), Ok(TestProgramInstruction::Transfer { amount: 42_000 }));
    let mut cpi = vec![5u8];
    cpi.extend_from_slice(&u64::MAX.to_le_bytes());
    assert_eq!(TestProgramInstruction::unpack(&cpi), Ok(TestProgramInstruction::TransferWithCpi { amount: u64::MAX }));
}

#[test]
fn unpack_rejects_short_or_unknown_input() {
    assert_eq!(TestProgramInstruction::unpack(&[]), Err(ProgramError::InvalidInstructionData));
    assert_eq!(TestProgramInstruction::unpack(&[1, 2, 3, 4]), Err(ProgramError::InvalidInstructionData));
    assert_eq!(TestProgramInstruction::unpack(&[4, 1, 2, 3, 4, 5, 6, 7]), Err(ProgramError::InvalidInstructionData));
    assert_eq!(TestProgramInstruction::unpack(&[5]), Err(ProgramError::InvalidInstructionData));
    assert_eq!(TestProgramInstruction::unpack(&[6]), Err(ProgramError::InvalidInstructionData));
}
