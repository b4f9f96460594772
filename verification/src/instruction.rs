//! The requests of the program and their wire format: a tag byte, then
//! little-endian integers or a length-prefixed payload.
use vstd::prelude::*;
use vstd::slice::slice_subrange;
use crate::codec::{key_at, read_key, read_u64, u64_at};
use crate::error::{custom, ProgramError, TokenError};
use crate::group::{
    multisig_of, proposal_len, proposal_of, Multisig, MultisigView, TransferProposalView,
};
use crate::record::{record_of, Layout, StreamRecordView, WhiteList};
use crate::state::{EscrowMultisig, SolTransfer, TokenEscrowMultisig, TokenTransfer};

verus! {

/// The creation of a native stream.
#[derive(Clone, Copy, Debug, PartialEq, Eq, Structural)]
pub struct ProcessSolStream {
    pub start_time: u64,
    pub end_time: u64,
    pub amount: u64,
}

/// The creation of a token stream.
#[derive(Clone, Copy, Debug, PartialEq, Eq, Structural)]
pub struct ProcessTokenStream {
    pub start_time: u64,
    pub end_time: u64,
    pub amount: u64,
}

/// A withdrawal from a native stream.
#[derive(Clone, Copy, Debug, PartialEq, Eq, Structural)]
pub struct ProcessSolWithdrawStream {
    pub amount: u64,
}

/// A withdrawal from a token stream.
#[derive(Clone, Copy, Debug, PartialEq, Eq, Structural)]
pub struct ProcessTokenWithdrawStream {
    pub amount: u64,
}

/// A deposit of lamports into the vault.
#[derive(Clone, Copy, Debug, PartialEq, Eq, Structural)]
pub struct ProcessDepositSol {
    pub amount: u64,
}

/// A deposit of tokens into the vault.
#[derive(Clone, Copy, Debug, PartialEq, Eq, Structural)]
pub struct ProcessDepositToken {
    pub amount: u64,
}

/// A top-up of a native stream.
#[derive(Clone, Copy, Debug, PartialEq, Eq, Structural)]
pub struct ProcessFundSol {
    pub end_time: u64,
    pub amount: u64,
}

/// A top-up of a token stream.
#[derive(Clone, Copy, Debug, PartialEq, Eq, Structural)]
pub struct ProcessFundToken {
    pub end_time: u64,
    pub amount: u64,
}

/// A free withdrawal of lamports out of the vault.
#[derive(Clone, Copy, Debug, PartialEq, Eq, Structural)]
pub struct ProcessWithdrawSol {
    pub amount: u64,
}

/// A free withdrawal of tokens out of the vault.
#[derive(Clone, Copy, Debug, PartialEq, Eq, Structural)]
pub struct ProcessWithdrawToken {
    pub amount: u64,
}

/// A move of lamports from the vault into a multisig safe.
#[derive(Clone, Copy, Debug, PartialEq, Eq, Structural)]
pub struct ProcessSwapSol {
    pub amount: u64,
}

/// A move of tokens from the vault into a multisig safe.
#[derive(Clone, Copy, Debug, PartialEq, Eq, Structural)]
pub struct ProcessSwapToken {
    pub amount: u64,
}

/// A withdrawal from a native multisig stream.
#[derive(Clone, Copy, Debug, PartialEq, Eq, Structural)]
pub struct ProcessSolWithdrawStreamMultisig {
    pub amount: u64,
}

/// A withdrawal from a token multisig stream.
#[derive(Clone, Copy, Debug, PartialEq, Eq, Structural)]
pub struct ProcessTokenWithdrawStreamMultisig {
    pub amount: u64,
}

/// A request, by the tag byte that stands for it on the wire.
#[derive(Clone, Debug)]
#[allow(inconsistent_fields)]
pub enum TokenInstruction {
    /// Tag 0: native-stream-create.
    ProcessSolStream(ProcessSolStream),
    /// Tag 1: native-stream-withdraw.
    ProcessSolWithdrawStream(ProcessSolWithdrawStream),
    /// Tag 2: native-stream-cancel.
    ProcessCancelSolStream,
    /// Tag 3: token-stream-create.
    ProcessTokenStream(ProcessTokenStream),
    /// Tag 4: native-stream-pause.
    ProcessPauseSolStream,
    /// Tag 5: native-stream-resume.
    ProcessResumeSolStream,
    /// Tag 6: token-stream-withdraw.
    ProcessTokenWithdrawStream(ProcessTokenWithdrawStream),
    /// Tag 7: native-deposit.
    ProcessDepositSol(ProcessDepositSol),
    /// Tag 8: token-stream-cancel.
    ProcessCancelTokenStream,
    /// Tag 9: token-stream-pause.
    ProcessPauseTokenStream,
    /// Tag 10: token-stream-resume.
    ProcessResumeTokenStream,
    /// Tag 11: token-deposit.
    ProcessDepositToken(ProcessDepositToken),
    /// Tag 12: native-fund.
    ProcessFundSol(ProcessFundSol),
    /// Tag 13: token-fund.
    ProcessFundToken(ProcessFundToken),
    /// Tag 14: native-vault-withdraw.
    ProcessWithdrawSol(ProcessWithdrawSol),
    /// Tag 15: token-vault-withdraw.
    ProcessWithdrawToken(ProcessWithdrawToken),
    /// Tag 16: multisig-create.
    CreateWhitelist { whitelist_v1: Multisig },
    /// Tag 17: native-swap-vault-to-safe.
    ProcessSwapSol(ProcessSwapSol),
    /// Tag 18: token-swap-vault-to-safe.
    ProcessSwapToken(ProcessSwapToken),
    /// Tag 19: multisig-stream-sign (native).
    SignedBy { whitelist_v2: WhiteList },
    /// Tag 20: multisig-native-stream-create.
    ProcessSolMultiSigStream { whitelist_v3: EscrowMultisig },
    /// Tag 21: multisig-native-withdraw.
    ProcessSolWithdrawStreamMultisig(ProcessSolWithdrawStreamMultisig),
    /// Tag 22: multisig-native-cancel.
    ProcessSolCancelStreamMultisig,
    /// Tag 23: multisig-native-pause.
    ProcessPauseMultisigStream,
    /// Tag 24: multisig-native-resume.
    ProcessResumeMultisigStream,
    /// Tag 25: multisig-native-reject.
    ProcessRejectMultisigStream,
    /// Tag 26: multisig-token-stream-create.
    ProcessSolTokenMultiSigStream { whitelist_v4: TokenEscrowMultisig },
    /// Tag 27: multisig-token-withdraw.
    ProcessTokenWithdrawStreamMultisig(ProcessTokenWithdrawStreamMultisig),
    /// Tag 28: multisig-token-cancel.
    ProcessTokenCancelStreamMultisig,
    /// Tag 29: multisig-token-pause.
    ProcessPauseTokenMultisigStream,
    /// Tag 30: multisig-token-resume.
    ProcessResumeTokenMultisigStream,
    /// Tag 31: multisig-token-reject.
    ProcessRejectTokenMultisigStream,
    /// Tag 32: multisig-stream-sign (token).
    SignedByToken { whitelist_v4: WhiteList },
    /// Tag 33: native transfer proposal.
    ProcessSolTransfer { whitelist_v3: SolTransfer },
    /// Tag 34: token transfer proposal.
    ProcessTokenTransfer { whitelist_v3: TokenTransfer },
    /// Tag 35: approval of a native transfer proposal.
    SignedByTransferSol,
    /// Tag 36: approval of a token transfer proposal.
    SignedByTransferToken,
    /// Tag 37: rejection of a native transfer proposal.
    ProcessRejectTransferSol,
    /// Tag 38: rejection of a token transfer proposal.
    ProcessRejectTransferToken,
}

/// A request as a mathematical value: its tag, its integers in the order
/// of the wire, and the payload that it carries.
pub struct InstructionView {
    pub tag: u8,
    pub numbers: Seq<u64>,
    pub group: Option<MultisigView>,
    pub member: Option<WhiteList>,
    pub record: Option<StreamRecordView>,
    pub proposal: Option<TransferProposalView>,
}

/// A request without a payload.
pub open spec fn plain(tag: u8, numbers: Seq<u64>) -> InstructionView {
    InstructionView { tag, numbers, group: None, member: None, record: None, proposal: None }
}

impl View for TokenInstruction {
    type V = InstructionView;

    open spec fn view(&self) -> InstructionView {
        match *self {
            TokenInstruction::ProcessSolStream(p) => plain(0, seq![p.start_time, p.end_time, p.amount]),
            TokenInstruction::ProcessSolWithdrawStream(p) => plain(1, seq![p.amount]),
            TokenInstruction::ProcessCancelSolStream => plain(2, Seq::empty()),
            TokenInstruction::ProcessTokenStream(p) => plain(3, seq![p.start_time, p.end_time, p.amount]),
            TokenInstruction::ProcessPauseSolStream => plain(4, Seq::empty()),
            TokenInstruction::ProcessResumeSolStream => plain(5, Seq::empty()),
            TokenInstruction::ProcessTokenWithdrawStream(p) => plain(6, seq![p.amount]),
            TokenInstruction::ProcessDepositSol(p) => plain(7, seq![p.amount]),
            TokenInstruction::ProcessCancelTokenStream => plain(8, Seq::empty()),
            TokenInstruction::ProcessPauseTokenStream => plain(9, Seq::empty()),
            TokenInstruction::ProcessResumeTokenStream => plain(10, Seq::empty()),
            TokenInstruction::ProcessDepositToken(p) => plain(11, seq![p.amount]),
            TokenInstruction::ProcessFundSol(p) => plain(12, seq![p.end_time, p.amount]),
            TokenInstruction::ProcessFundToken(p) => plain(13, seq![p.end_time, p.amount]),
            TokenInstruction::ProcessWithdrawSol(p) => plain(14, seq![p.amount]),
            TokenInstruction::ProcessWithdrawToken(p) => plain(15, seq![p.amount]),
            TokenInstruction::CreateWhitelist { whitelist_v1 } => InstructionView {
                group: Some(whitelist_v1@),
                ..plain(16, Seq::empty())
            },
            TokenInstruction::ProcessSwapSol(p) => plain(17, seq![p.amount]),
            TokenInstruction::ProcessSwapToken(p) => plain(18, seq![p.amount]),
            TokenInstruction::SignedBy { whitelist_v2 } => InstructionView {
                member: Some(whitelist_v2),
                ..plain(19, Seq::empty())
            },
            TokenInstruction::ProcessSolMultiSigStream { whitelist_v3 } => InstructionView {
                record: Some(whitelist_v3.record_view()),
                ..plain(20, Seq::empty())
            },
            TokenInstruction::ProcessSolWithdrawStreamMultisig(p) => plain(21, seq![p.amount]),
            TokenInstruction::ProcessSolCancelStreamMultisig => plain(22, Seq::empty()),
            TokenInstruction::ProcessPauseMultisigStream => plain(23, Seq::empty()),
            TokenInstruction::ProcessResumeMultisigStream => plain(24, Seq::empty()),
            TokenInstruction::ProcessRejectMultisigStream => plain(25, Seq::empty()),
            TokenInstruction::ProcessSolTokenMultiSigStream { whitelist_v4 } => InstructionView {
                record: Some(whitelist_v4.record_view()),
                ..plain(26, Seq::empty())
            },
            TokenInstruction::ProcessTokenWithdrawStreamMultisig(p) => plain(27, seq![p.amount]),
            TokenInstruction::ProcessTokenCancelStreamMultisig => plain(28, Seq::empty()),
            TokenInstruction::ProcessPauseTokenMultisigStream => plain(29, Seq::empty()),
            TokenInstruction::ProcessResumeTokenMultisigStream => plain(30, Seq::empty()),
            TokenInstruction::ProcessRejectTokenMultisigStream => plain(31, Seq::empty()),
            TokenInstruction::SignedByToken { whitelist_v4 } => InstructionView {
                member: Some(whitelist_v4),
                ..plain(32, Seq::empty())
            },
            TokenInstruction::ProcessSolTransfer { whitelist_v3 } => InstructionView {
                proposal: Some(whitelist_v3.proposal_view()),
                ..plain(33, Seq::empty())
            },
            TokenInstruction::ProcessTokenTransfer { whitelist_v3 } => InstructionView {
                proposal: Some(whitelist_v3.proposal_view()),
                ..plain(34, Seq::empty())
            },
            TokenInstruction::SignedByTransferSol => plain(35, Seq::empty()),
            TokenInstruction::SignedByTransferToken => plain(36, Seq::empty()),
            TokenInstruction::ProcessRejectTransferSol => plain(37, Seq::empty()),
            TokenInstruction::ProcessRejectTransferToken => plain(38, Seq::empty()),
        }
    }
}

/// The layout of the payload that creates a native multisig stream.
pub open spec fn native_request() -> Layout {
    Layout { token: false, multisig: true, current: false }
}

/// The layout of the payload that creates a token multisig stream.
pub open spec fn token_request() -> Layout {
    Layout { token: true, multisig: true, current: false }
}

/// How many 64-bit integers follow the tag, for the tags that carry integers.
pub open spec fn number_count(tag: u8) -> Option<int> {
    if tag == 0 || tag == 3 {
        Some(3)
    } else if tag == 12 || tag == 13 {
        Some(2)
    } else if tag == 1 || tag == 6 || tag == 7 || tag == 11 || tag == 14 || tag == 15 || tag == 17
        || tag == 18 || tag == 21 || tag == 27 {
        Some(1)
    } else {
        None
    }
}

/// The tag stands for a request without integers and without a payload.
pub open spec fn is_bare(tag: u8) -> bool {
    tag == 2 || tag == 4 || tag == 5 || tag == 8 || tag == 9 || tag == 10 || (22 <= tag <= 25) || (28
        <= tag <= 31) || (35 <= tag <= 38)
}

/// The request that an input stands for. The first byte is the tag. A tag
/// that carries integers is followed by at least that many; what follows
/// them is ignored. A payload takes the whole rest of the input. An empty
/// input, an unknown tag and a malformed rest stand for no request.
pub open spec fn decoded(input: Seq<u8>) -> Option<InstructionView> {
    if input.len() == 0 {
        None
    } else {
        let tag = input[0];
        let rest = input.subrange(1, input.len() as int);
        if number_count(tag) is Some {
            let n = number_count(tag)->Some_0;
            if rest.len() < 8 * n {
                None
            } else {
                Some(plain(tag, Seq::new(n as nat, |i: int| u64_at(rest, 8 * i))))
            }
        } else if is_bare(tag) {
            Some(plain(tag, Seq::empty()))
        } else if tag == 16 {
            match multisig_of(rest) {
                Some(g) => if rest.len() == 4 + 33 * g.signers.len() + 33 {
                    Some(InstructionView { group: Some(g), ..plain(tag, Seq::empty()) })
                } else {
                    None
                },
                None => None,
            }
        } else if tag == 19 || tag == 32 {
            if rest.len() == 33 {
                Some(
                    InstructionView {
                        member: Some(WhiteList { address: key_at(rest, 0), counter: rest[32] }),
                        ..plain(tag, Seq::empty())
                    },
                )
            } else {
                None
            }
        } else if tag == 20 || tag == 26 {
            let layout = if tag == 20 {
                native_request()
            } else {
                token_request()
            };
            match record_of(layout, rest) {
                Some(rec) => if rest.len() == layout.packed_len(rec.signed_by.len() as int) {
                    Some(InstructionView { record: Some(rec), ..plain(tag, Seq::empty()) })
                } else {
                    None
                },
                None => None,
            }
        } else if tag == 33 || tag == 34 {
            match proposal_of(tag == 34, rest) {
                Some(p) => if rest.len() == proposal_len(tag == 34, p.signed_by.len() as int) {
                    Some(InstructionView { proposal: Some(p), ..plain(tag, Seq::empty()) })
                } else {
                    None
                },
                None => None,
            }
        } else {
            None
        }
    }
}

fn invalid<T>() -> (r: Result<T, ProgramError>)
    ensures
        r == Err::<T, ProgramError>(custom(TokenError::InvalidInstruction)),
{
    Err(ProgramError::from(TokenError::InvalidInstruction))
}

impl TokenInstruction {
    /// Unpacks a byte buffer into a request.
    pub fn unpack(input: &[u8]) -> (r: Result<TokenInstruction, ProgramError>)
        ensures
            match r {
                Ok(instruction) => decoded(input@) == Some(instruction@),
                Err(e) => decoded(input@) is None && e == custom(TokenError::InvalidInstruction),
            },
    {
        if input.len() == 0 {
            return invalid();
        }
        let tag = input[0];
        let rest = slice_subrange(input, 1, input.len());
        let count: usize = match tag {
            0 | 3 => 3,
            12 | 13 => 2,
            1 | 6 | 7 | 11 | 14 | 15 | 17 | 18 | 21 | 27 => 1,
            _ => 0,
        };
        if rest.len() < 8 * count {
            return invalid();
        }
        let first: u64 = if count >= 1 { read_u64(rest, 0) } else { 0 };
        let second: u64 = if count >= 2 { read_u64(rest, 8) } else { 0 };
        let third: u64 = if count >= 3 { read_u64(rest, 16) } else { 0 };
        proof {
            if count == 3 {
                assert(seq![first, second, third] =~= Seq::new(3, |i: int| u64_at(rest@, 8 * i)));
            }
            if count == 2 {
                assert(seq![first, second] =~= Seq::new(2, |i: int| u64_at(rest@, 8 * i)));
            }
            if count == 1 {
                assert(seq![first] =~= Seq::new(1, |i: int| u64_at(rest@, 8 * i)));
            }
        }
        match tag {
            0 => Ok(TokenInstruction::ProcessSolStream(ProcessSolStream { start_time: first, end_time: second, amount: third })),
            1 => Ok(TokenInstruction::ProcessSolWithdrawStream(ProcessSolWithdrawStream { amount: first })),
            2 => Ok(TokenInstruction::ProcessCancelSolStream),
            3 => Ok(TokenInstruction::ProcessTokenStream(ProcessTokenStream { start_time: first, end_time: second, amount: third })),
            4 => Ok(TokenInstruction::ProcessPauseSolStream),
            5 => Ok(TokenInstruction::ProcessResumeSolStream),
            6 => Ok(TokenInstruction::ProcessTokenWithdrawStream(ProcessTokenWithdrawStream { amount: first })),
            7 => Ok(TokenInstruction::ProcessDepositSol(ProcessDepositSol { amount: first })),
            8 => Ok(TokenInstruction::ProcessCancelTokenStream),
            9 => Ok(TokenInstruction::ProcessPauseTokenStream),
            10 => Ok(TokenInstruction::ProcessResumeTokenStream),
            11 => Ok(TokenInstruction::ProcessDepositToken(ProcessDepositToken { amount: first })),
            12 => Ok(TokenInstruction::ProcessFundSol(ProcessFundSol { end_time: first, amount: second })),
            13 => Ok(TokenInstruction::ProcessFundToken(ProcessFundToken { end_time: first, amount: second })),
            14 => Ok(TokenInstruction::ProcessWithdrawSol(ProcessWithdrawSol { amount: first })),
            15 => Ok(TokenInstruction::ProcessWithdrawToken(ProcessWithdrawToken { amount: first })),
            16 => match Multisig::unpack(rest) {
                Ok(whitelist_v1) => {
                    if rest.len() as u64 != 4 + 33 * (whitelist_v1.signers.len() as u64) + 33 {
                        return invalid();
                    }
                    Ok(TokenInstruction::CreateWhitelist { whitelist_v1 })
                },
                Err(_) => invalid(),
            },
            17 => Ok(TokenInstruction::ProcessSwapSol(ProcessSwapSol { amount: first })),
            18 => Ok(TokenInstruction::ProcessSwapToken(ProcessSwapToken { amount: first })),
            19 => {
                if rest.len() != 33 {
                    return invalid();
                }
                let whitelist_v2 = WhiteList { address: read_key(rest, 0), counter: rest[32] };
                Ok(TokenInstruction::SignedBy { whitelist_v2 })
            },
            20 => match EscrowMultisig::unpack(rest) {
                Ok(whitelist_v3) => {
                    if rest.len() as u64 != 104 + 4 + 33 * (whitelist_v3.signed_by.len() as u64) + 33 {
                        return invalid();
                    }
                    Ok(TokenInstruction::ProcessSolMultiSigStream { whitelist_v3 })
                },
                Err(_) => invalid(),
            },
            21 => Ok(TokenInstruction::ProcessSolWithdrawStreamMultisig(ProcessSolWithdrawStreamMultisig { amount: first })),
            22 => Ok(TokenInstruction::ProcessSolCancelStreamMultisig),
            23 => Ok(TokenInstruction::ProcessPauseMultisigStream),
            24 => Ok(TokenInstruction::ProcessResumeMultisigStream),
            25 => Ok(TokenInstruction::ProcessRejectMultisigStream),
            26 => match TokenEscrowMultisig::unpack(rest) {
                Ok(whitelist_v4) => {
                    if rest.len() as u64 != 136 + 4 + 33 * (whitelist_v4.signed_by.len() as u64) + 33 {
                        return invalid();
                    }
                    Ok(TokenInstruction::ProcessSolTokenMultiSigStream { whitelist_v4 })
                },
                Err(_) => invalid(),
            },
            27 => Ok(TokenInstruction::ProcessTokenWithdrawStreamMultisig(ProcessTokenWithdrawStreamMultisig { amount: first })),
            28 => Ok(TokenInstruction::ProcessTokenCancelStreamMultisig),
            29 => Ok(TokenInstruction::ProcessPauseTokenMultisigStream),
            30 => Ok(TokenInstruction::ProcessResumeTokenMultisigStream),
            31 => Ok(TokenInstruction::ProcessRejectTokenMultisigStream),
            32 => {
                if rest.len() != 33 {
                    return invalid();
                }
                let whitelist_v4 = WhiteList { address: read_key(rest, 0), counter: rest[32] };
                Ok(TokenInstruction::SignedByToken { whitelist_v4 })
            },
            33 => match crate::group::TransferProposal::unpack(false, rest) {
                Ok(p) => {
                    if rest.len() as u64 != 64 + 4 + 33 * (p.signed_by.len() as u64) + 40 + 0 {
                        return invalid();
                    }
                    let whitelist_v3 = SolTransfer::from_proposal(p);
                    Ok(TokenInstruction::ProcessSolTransfer { whitelist_v3 })
                },
                Err(_) => invalid(),
            },
            34 => match crate::group::TransferProposal::unpack(true, rest) {
                Ok(p) => {
                    if rest.len() as u64 != 64 + 4 + 33 * (p.signed_by.len() as u64) + 40 + 32 {
                        return invalid();
                    }
                    let whitelist_v3 = TokenTransfer::from_proposal(p);
                    Ok(TokenInstruction::ProcessTokenTransfer { whitelist_v3 })
                },
                Err(_) => invalid(),
            },
            35 => Ok(TokenInstruction::SignedByTransferSol),
            36 => Ok(TokenInstruction::SignedByTransferToken),
            37 => Ok(TokenInstruction::ProcessRejectTransferSol),
            38 => Ok(TokenInstruction::ProcessRejectTransferToken),
            _ => invalid(),
        }
    }
}

} // verus!
