use stream_escrow::error::{ProgramError, TokenError};

const ALL: [TokenError; 15] = [
    TokenError::NotRentExempt,
    TokenError::EscrowMismatch,
    TokenError::OwnerMismatch,
    TokenError::InvalidInstruction,
    TokenError::TimeEnd,
    TokenError::AlreadyCancel,
    TokenError::AlreadyWithdrawn,
    TokenError::Overflow,
    TokenError::PublicKeyMismatch,
    TokenError::AlreadyPaused,
    TokenError::AlreadyResumed,
    TokenError::StreamAlreadyCreated,
    TokenError::StreamNotStarted,
    TokenError::StreamedAmt,
    TokenError::CancelNotAllowed,
];

#[test]
fn codes_follow_the_order_of_the_kinds() {
    for (i, e) in ALL.iter().enumerate() {
        assert_eq!(e.code(), i as u32);
        assert_eq!(TokenError::from_code(i as u32), Some(*e));
    }
    assert_eq!(TokenError::from_code(15), None);
    assert_eq!(TokenError::from_code(u32::MAX), None);
}

#[test]
fn every_kind_has_a_label() {
    for e in ALL.iter() {
        assert!(!e.print().is_empty());
    }
    assert_eq!(TokenError::TimeEnd.print(), "Error: Time has already passed");
    assert_eq!(TokenError::StreamedAmt.print(), "Cannot withdraw streaming amount");
    assert_eq!(TokenError::type_of(), "TokenError");
}

#[test]
fn program_error_from_token_error() {
    assert_eq!(ProgramError::from(TokenError::Overflow), ProgramError::Custom(7));
    assert_eq!(ProgramError::from(TokenError::NotRentExempt), ProgramError::Custom(0));
}

#[test]
fn wire_values_match_the_runtime() {
    let pairs = [
        (ProgramError::Custom(0), solana_program::program_error::ProgramError::Custom(0)),
        (ProgramError::Custom(13), solana_program::program_error::ProgramError::Custom(13)),
        (ProgramError::InvalidArgument, solana_program::program_error::ProgramError::InvalidArgument),
        (
            ProgramError::AccountDataTooSmall,
            solana_program::program_error::ProgramError::AccountDataTooSmall,
        ),
        (ProgramError::InsufficientFunds, solana_program::program_error::ProgramError::InsufficientFunds),
        (
            ProgramError::IncorrectProgramId,
            solana_program::program_error::ProgramError::IncorrectProgramId,
        ),
        (
            ProgramError::MissingRequiredSignature,
            solana_program::program_error::ProgramError::MissingRequiredSignature,
        ),
        (
            ProgramError::UninitializedAccount,
            solana_program::program_error::ProgramError::UninitializedAccount,
        ),
        (
            ProgramError::NotEnoughAccountKeys,
            solana_program::program_error::ProgramError::NotEnoughAccountKeys,
        ),
        (ProgramError::BorshIoError, solana_program::program_error::ProgramError::BorshIoError),
    ];
    for (ours, theirs) in pairs {
        assert_eq!(ours.to_u64(), u64::from(theirs));
    }
}
