//! Error kinds of the escrow program and of the runtime it reports to.
use vstd::prelude::*;
use vstd::std_specs::convert::FromSpecImpl;

verus! {

/// Errors that the escrow program itself signals. The position of a kind in
/// this list is its numeric code on the wire.
#[derive(Clone, Copy, Debug, PartialEq, Eq, Structural)]
pub enum TokenError {
    /// Lamport balance below rent-exempt threshold.
    NotRentExempt,
    /// Account not associated with this escrow.
    EscrowMismatch,
    /// Owner does not match.
    OwnerMismatch,
    /// Malformed request or unknown opcode.
    InvalidInstruction,
    /// The schedule's time has already passed.
    TimeEnd,
    /// Stream already cancelled.
    AlreadyCancel,
    /// Paused stream, streamed amount already withdrawn.
    AlreadyWithdrawn,
    /// Checked arithmetic overflowed.
    Overflow,
    /// A derived address does not match its expected derivation.
    PublicKeyMismatch,
    /// The stream is already paused.
    AlreadyPaused,
    /// The stream is not paused.
    AlreadyResumed,
    /// The record cell is not empty at creation.
    StreamAlreadyCreated,
    /// The stream has not been started.
    StreamNotStarted,
    /// A free withdrawal would take reserved funds.
    StreamedAmt,
    /// The stream was created without the right to cancel.
    CancelNotAllowed,
}

impl TokenError {
    /// The numeric code of each kind.
    pub open spec fn spec_code(self) -> u32 {
        match self {
            TokenError::NotRentExempt => 0,
            TokenError::EscrowMismatch => 1,
            TokenError::OwnerMismatch => 2,
            TokenError::InvalidInstruction => 3,
            TokenError::TimeEnd => 4,
            TokenError::AlreadyCancel => 5,
            TokenError::AlreadyWithdrawn => 6,
            TokenError::Overflow => 7,
            TokenError::PublicKeyMismatch => 8,
            TokenError::AlreadyPaused => 9,
            TokenError::AlreadyResumed => 10,
            TokenError::StreamAlreadyCreated => 11,
            TokenError::StreamNotStarted => 12,
            TokenError::StreamedAmt => 13,
            TokenError::CancelNotAllowed => 14,
        }
    }

    /// The line that the log shows for each kind.
    pub open spec fn spec_label(self) -> Seq<char> {
        match self {
            TokenError::NotRentExempt => "Error: Lamport balance below rent-exempt threshold"@,
            TokenError::EscrowMismatch => "Error: Account not associated with this Escrow"@,
            TokenError::OwnerMismatch => "Error: Owner does not match"@,
            TokenError::InvalidInstruction => "Error: Invalid instruction"@,
            TokenError::TimeEnd => "Error: Time has already passed"@,
            TokenError::AlreadyCancel => "Error: Stream already cancelled"@,
            TokenError::AlreadyWithdrawn => "Error: Paused stream, streamed amount already withdrawn"@,
            TokenError::Overflow => "Error: Operation overflowed"@,
            TokenError::PublicKeyMismatch => "Error: Public key mismatched"@,
            TokenError::AlreadyPaused => "Error: Transaction is already paused"@,
            TokenError::AlreadyResumed => "Error: Transaction is not paused"@,
            TokenError::StreamAlreadyCreated => "Stream Already Created"@,
            TokenError::StreamNotStarted => "Stream has not been started"@,
            TokenError::StreamedAmt => "Cannot withdraw streaming amount"@,
            TokenError::CancelNotAllowed => "cannot cancel this transaction"@,
        }
    }

    /// The numeric code of this kind.
    pub fn code(&self) -> (r: u32)
        ensures
            r == self.spec_code(),
            r <= 14,
    {
        match self {
            TokenError::NotRentExempt => 0,
            TokenError::EscrowMismatch => 1,
            TokenError::OwnerMismatch => 2,
            TokenError::InvalidInstruction => 3,
            TokenError::TimeEnd => 4,
            TokenError::AlreadyCancel => 5,
            TokenError::AlreadyWithdrawn => 6,
            TokenError::Overflow => 7,
            TokenError::PublicKeyMismatch => 8,
            TokenError::AlreadyPaused => 9,
            TokenError::AlreadyResumed => 10,
            TokenError::StreamAlreadyCreated => 11,
            TokenError::StreamNotStarted => 12,
            TokenError::StreamedAmt => 13,
            TokenError::CancelNotAllowed => 14,
        }
    }

    /// The kind with the given numeric code, if there is one.
    pub fn from_code(code: u32) -> (r: Option<TokenError>)
        ensures
            code <= 14 <==> r is Some,
            r matches Some(e) ==> e.spec_code() == code,
    {
        match code {
            0 => Some(TokenError::NotRentExempt),
            1 => Some(TokenError::EscrowMismatch),
            2 => Some(TokenError::OwnerMismatch),
            3 => Some(TokenError::InvalidInstruction),
            4 => Some(TokenError::TimeEnd),
            5 => Some(TokenError::AlreadyCancel),
            6 => Some(TokenError::AlreadyWithdrawn),
            7 => Some(TokenError::Overflow),
            8 => Some(TokenError::PublicKeyMismatch),
            9 => Some(TokenError::AlreadyPaused),
            10 => Some(TokenError::AlreadyResumed),
            11 => Some(TokenError::StreamAlreadyCreated),
            12 => Some(TokenError::StreamNotStarted),
            13 => Some(TokenError::StreamedAmt),
            14 => Some(TokenError::CancelNotAllowed),
            _ => None,
        }
    }

    /// The line that the log shows for this kind.
    pub fn print(&self) -> (r: &'static str)
        ensures
            r@ == self.spec_label(),
    {
        match self {
            TokenError::NotRentExempt => "Error: Lamport balance below rent-exempt threshold",
            TokenError::EscrowMismatch => "Error: Account not associated with this Escrow",
            TokenError::OwnerMismatch => "Error: Owner does not match",
            TokenError::InvalidInstruction => "Error: Invalid instruction",
            TokenError::TimeEnd => "Error: Time has already passed",
            TokenError::AlreadyCancel => "Error: Stream already cancelled",
            TokenError::AlreadyWithdrawn => "Error: Paused stream, streamed amount already withdrawn",
            TokenError::Overflow => "Error: Operation overflowed",
            TokenError::PublicKeyMismatch => "Error: Public key mismatched",
            TokenError::AlreadyPaused => "Error: Transaction is already paused",
            TokenError::AlreadyResumed => "Error: Transaction is not paused",
            TokenError::StreamAlreadyCreated => "Stream Already Created",
            TokenError::StreamNotStarted => "Stream has not been started",
            TokenError::StreamedAmt => "Cannot withdraw streaming amount",
            TokenError::CancelNotAllowed => "cannot cancel this transaction",
        }
    }

    /// The name under which the runtime decodes these codes.
    pub fn type_of() -> (r: &'static str)
        ensures
            r@ == "TokenError"@,
    {
        "TokenError"
    }
}

/// What an instruction fails with: a kind of the program's own, by its code,
/// or one of the runtime's kinds.
#[derive(Clone, Copy, Debug, PartialEq, Eq, Structural)]
pub enum ProgramError {
    /// One of the program's own kinds, by numeric code.
    Custom(u32),
    /// An account is not owned as the instruction expects.
    InvalidArgument,
    /// A cell is too small.
    AccountDataTooSmall,
    /// The requested release exceeds what is available.
    InsufficientFunds,
    /// The account does not have the expected program id.
    IncorrectProgramId,
    /// A required party did not sign.
    MissingRequiredSignature,
    /// The cell has not been initialized.
    UninitializedAccount,
    /// The instruction expected more accounts.
    NotEnoughAccountKeys,
    /// A cell or payload could not be decoded or encoded.
    BorshIoError,
}

impl ProgramError {
    /// The 64-bit value by which the runtime reports each kind.
    pub open spec fn spec_to_u64(self) -> u64 {
        match self {
            ProgramError::Custom(n) => if n == 0 {
                0x1_0000_0000
            } else {
                n as u64
            },
            ProgramError::InvalidArgument => 0x2_0000_0000,
            ProgramError::AccountDataTooSmall => 0x5_0000_0000,
            ProgramError::InsufficientFunds => 0x6_0000_0000,
            ProgramError::IncorrectProgramId => 0x7_0000_0000,
            ProgramError::MissingRequiredSignature => 0x8_0000_0000,
            ProgramError::UninitializedAccount => 0xa_0000_0000,
            ProgramError::NotEnoughAccountKeys => 0xb_0000_0000,
            ProgramError::BorshIoError => 0xf_0000_0000,
        }
    }

    /// The 64-bit value by which the runtime reports this kind.
    pub fn to_u64(&self) -> (r: u64)
        ensures
            r == self.spec_to_u64(),
    {
        match self {
            ProgramError::Custom(n) => if *n == 0 {
                0x1_0000_0000
            } else {
                *n as u64
            },
            ProgramError::InvalidArgument => 0x2_0000_0000,
            ProgramError::AccountDataTooSmall => 0x5_0000_0000,
            ProgramError::InsufficientFunds => 0x6_0000_0000,
            ProgramError::IncorrectProgramId => 0x7_0000_0000,
            ProgramError::MissingRequiredSignature => 0x8_0000_0000,
            ProgramError::UninitializedAccount => 0xa_0000_0000,
            ProgramError::NotEnoughAccountKeys => 0xb_0000_0000,
            ProgramError::BorshIoError => 0xf_0000_0000,
        }
    }
}

/// The failure that stands for a kind of the program's own.
pub open spec fn custom(e: TokenError) -> ProgramError {
    ProgramError::Custom(e.spec_code())
}

impl From<TokenError> for ProgramError {
    fn from(e: TokenError) -> (r: ProgramError) {
        ProgramError::Custom(e.code())
    }
}

impl FromSpecImpl<TokenError> for ProgramError {
    open spec fn obeys_from_spec() -> bool {
        true
    }

    open spec fn from_spec(e: TokenError) -> ProgramError {
        custom(e)
    }
}

/// Distinct kinds of the program have distinct codes, and a failure of the
/// program's own never has the value of one of the runtime's kinds.
pub proof fn law_codes_distinct(a: TokenError, b: TokenError)
    ensures
        a.spec_code() == b.spec_code() ==> a == b,
        custom(a).spec_to_u64() == custom(b).spec_to_u64() ==> a == b,
        custom(a).spec_to_u64() <= 0x1_0000_0000,
{
}

} // verus!
