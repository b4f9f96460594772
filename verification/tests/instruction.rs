use stream_escrow::error::ProgramError;
use stream_escrow::group::Multisig;
use stream_escrow::instruction::TokenInstruction;
use stream_escrow::keys::Pubkey;
use stream_escrow::record::{Layout, StreamRecord, WhiteList};
use stream_escrow::schedule::Schedule;
use stream_escrow::group::TransferProposal;

fn key(n: u8) -> Pubkey {
    Pubkey { bytes: [n; 32] }
}

fn input(tag: u8, numbers: &[u64]) -> Vec<u8> {
    let mut v = vec![tag];
    for n in numbers {
        v.extend_from_slice(&n.to_le_bytes());
    }
    v
}

fn invalid() -> ProgramError {
    ProgramError::Custom(3)
}

#[test]
fn stream_creation_carries_three_integers() {
    match TokenInstruction::unpack(&input(0, &[1000, 2000, 5])).unwrap() {
        TokenInstruction::ProcessSolStream(p) => {
            assert_eq!((p.start_time, p.end_time, p.amount), (1000, 2000, 5));
        }
        other => panic!("{:?}", other),
    }
    match TokenInstruction::unpack(&input(3, &[1, u64::MAX, 0])).unwrap() {
        TokenInstruction::ProcessTokenStream(p) => {
            assert_eq!((p.start_time, p.end_time, p.amount), (1, u64::MAX, 0));
        }
        other => panic!("{:?}", other),
    }
    assert_eq!(TokenInstruction::unpack(&input(0, &[1000, 2000])).err(), Some(invalid()));
    let mut short = input(3, &[1, 2, 3]);
    short.pop();
    assert_eq!(TokenInstruction::unpack(&short).err(), Some(invalid()));
}

#[test]
fn amounts_are_read_and_the_rest_is_ignored() {
    let mut bytes = input(1, &[400]);
    bytes.extend_from_slice(&[1, 2, 3]);
    assert!(matches!(
        TokenInstruction::unpack(&bytes).unwrap(),
        TokenInstruction::ProcessSolWithdrawStream(p) if p.amount == 400
    ));
    assert!(matches!(
        TokenInstruction::unpack(&input(6, &[1])).unwrap(),
        TokenInstruction::ProcessTokenWithdrawStream(p) if p.amount == 1
    ));
    assert!(matches!(
        TokenInstruction::unpack(&input(7, &[2])).unwrap(),
        TokenInstruction::ProcessDepositSol(p) if p.amount == 2
    ));
    assert!(matches!(
        TokenInstruction::unpack(&input(11, &[3])).unwrap(),
        TokenInstruction::ProcessDepositToken(p) if p.amount == 3
    ));
    assert!(matches!(
        TokenInstruction::unpack(&input(14, &[4])).unwrap(),
        TokenInstruction::ProcessWithdrawSol(p) if p.amount == 4
    ));
    assert!(matches!(
        TokenInstruction::unpack(&input(15, &[5])).unwrap(),
        TokenInstruction::ProcessWithdrawToken(p) if p.amount == 5
    ));
    assert!(matches!(
        TokenInstruction::unpack(&input(17, &[6])).unwrap(),
        TokenInstruction::ProcessSwapSol(p) if p.amount == 6
    ));
    assert!(matches!(
        TokenInstruction::unpack(&input(18, &[7])).unwrap(),
        TokenInstruction::ProcessSwapToken(p) if p.amount == 7
    ));
    assert!(matches!(
        TokenInstruction::unpack(&input(21, &[8])).unwrap(),
        TokenInstruction::ProcessSolWithdrawStreamMultisig(p) if p.amount == 8
    ));
    assert!(matches!(
        TokenInstruction::unpack(&input(27, &[9])).unwrap(),
        TokenInstruction::ProcessTokenWithdrawStreamMultisig(p) if p.amount == 9
    ));
    assert_eq!(TokenInstruction::unpack(&[1, 0, 0, 0, 0, 0, 0, 0]).err(), Some(invalid()));
}

#[test]
fn funds_carry_the_end_and_the_amount() {
    assert!(matches!(
        TokenInstruction::unpack(&input(12, &[3000, 500])).unwrap(),
        TokenInstruction::ProcessFundSol(p) if p.end_time == 3000 && p.amount == 500
    ));
    assert!(matches!(
        TokenInstruction::unpack(&input(13, &[3000, 500])).unwrap(),
        TokenInstruction::ProcessFundToken(p) if p.end_time == 3000 && p.amount == 500
    ));
    assert_eq!(TokenInstruction::unpack(&input(12, &[3000])).err(), Some(invalid()));
}

#[test]
fn bare_tags() {
    assert!(matches!(TokenInstruction::unpack(&[2]).unwrap(), TokenInstruction::ProcessCancelSolStream));
    assert!(matches!(TokenInstruction::unpack(&[4]).unwrap(), TokenInstruction::ProcessPauseSolStream));
    assert!(matches!(TokenInstruction::unpack(&[5]).unwrap(), TokenInstruction::ProcessResumeSolStream));
    assert!(matches!(TokenInstruction::unpack(&[8]).unwrap(), TokenInstruction::ProcessCancelTokenStream));
    assert!(matches!(TokenInstruction::unpack(&[9]).unwrap(), TokenInstruction::ProcessPauseTokenStream));
    assert!(matches!(TokenInstruction::unpack(&[10]).unwrap(), TokenInstruction::ProcessResumeTokenStream));
    assert!(matches!(
        TokenInstruction::unpack(&[22]).unwrap(),
        TokenInstruction::ProcessSolCancelStreamMultisig
    ));
    assert!(matches!(TokenInstruction::unpack(&[23]).unwrap(), TokenInstruction::ProcessPauseMultisigStream));
    assert!(matches!(TokenInstruction::unpack(&[24]).unwrap(), TokenInstruction::ProcessResumeMultisigStream));
    assert!(matches!(TokenInstruction::unpack(&[25]).unwrap(), TokenInstruction::ProcessRejectMultisigStream));
    assert!(matches!(
        TokenInstruction::unpack(&[28]).unwrap(),
        TokenInstruction::ProcessTokenCancelStreamMultisig
    ));
    assert!(matches!(
        TokenInstruction::unpack(&[29]).unwrap(),
        TokenInstruction::ProcessPauseTokenMultisigStream
    ));
    assert!(matches!(
        TokenInstruction::unpack(&[30]).unwrap(),
        TokenInstruction::ProcessResumeTokenMultisigStream
    ));
    assert!(matches!(
        TokenInstruction::unpack(&[31, 1, 2]).unwrap(),
        TokenInstruction::ProcessRejectTokenMultisigStream
    ));
    assert!(matches!(TokenInstruction::unpack(&[35]).unwrap(), TokenInstruction::SignedByTransferSol));
    assert!(matches!(TokenInstruction::unpack(&[36]).unwrap(), TokenInstruction::SignedByTransferToken));
    assert!(matches!(TokenInstruction::unpack(&[37]).unwrap(), TokenInstruction::ProcessRejectTransferSol));
    assert!(matches!(TokenInstruction::unpack(&[38]).unwrap(), TokenInstruction::ProcessRejectTransferToken));
}

#[test]
fn unknown_tags_and_empty_input() {
    assert_eq!(TokenInstruction::unpack(&[]).err(), Some(invalid()));
    for tag in 39..=255u8 {
        assert_eq!(TokenInstruction::unpack(&input(tag, &[1, 2, 3])).err(), Some(invalid()));
    }
}

#[test]
fn group_payload() {
    let g = Multisig {
        signers: vec![WhiteList { address: key(1), counter: 0 }, WhiteList { address: key(2), counter: 1 }],
        m: 2,
        multisig_safe: key(0),
    };
    let mut bytes = vec![16u8];
    bytes.extend_from_slice(&g.pack().unwrap());
    match TokenInstruction::unpack(&bytes).unwrap() {
        TokenInstruction::CreateWhitelist { whitelist_v1 } => {
            assert_eq!(whitelist_v1.m, 2);
            assert_eq!(whitelist_v1.signers.len(), 2);
            assert!(whitelist_v1.signers[1].address == key(2));
        }
        other => panic!("{:?}", other),
    }
    bytes.push(0);
    assert_eq!(TokenInstruction::unpack(&bytes).err(), Some(invalid()));
    bytes.truncate(bytes.len() - 2);
    assert_eq!(TokenInstruction::unpack(&bytes).err(), Some(invalid()));
}

#[test]
fn approval_payload() {
    let mut bytes = vec![19u8];
    bytes.extend_from_slice(&[7u8; 32]);
    bytes.push(3);
    match TokenInstruction::unpack(&bytes).unwrap() {
        TokenInstruction::SignedBy { whitelist_v2 } => {
            assert!(whitelist_v2.address == key(7));
            assert_eq!(whitelist_v2.counter, 3);
        }
        other => panic!("{:?}", other),
    }
    bytes[0] = 32;
    assert!(matches!(TokenInstruction::unpack(&bytes).unwrap(), TokenInstruction::SignedByToken { .. }));
    bytes.push(0);
    assert_eq!(TokenInstruction::unpack(&bytes).err(), Some(invalid()));
    assert_eq!(TokenInstruction::unpack(&[19]).err(), Some(invalid()));
}

#[test]
fn multisig_stream_payloads() {
    let rec = StreamRecord {
        schedule: Schedule::new(10, 20, 500),
        sender: key(1),
        recipient: key(2),
        token_mint: key(3),
        signed_by: vec![WhiteList { address: key(1), counter: 0 }],
        multisig_safe: key(4),
        can_cancel: true,
    };
    let mut bytes = vec![20u8];
    bytes.extend_from_slice(&rec.pack(Layout { token: false, multisig: true, current: false }).unwrap());
    match TokenInstruction::unpack(&bytes).unwrap() {
        TokenInstruction::ProcessSolMultiSigStream { whitelist_v3 } => {
            assert_eq!((whitelist_v3.start_time, whitelist_v3.end_time, whitelist_v3.amount), (10, 20, 500));
            assert_eq!(whitelist_v3.signed_by.len(), 1);
            assert!(whitelist_v3.can_cancel);
        }
        other => panic!("{:?}", other),
    }
    bytes.push(1);
    assert_eq!(TokenInstruction::unpack(&bytes).err(), Some(invalid()));
    let mut bytes = vec![26u8];
    bytes.extend_from_slice(&rec.pack(Layout { token: true, multisig: true, current: false }).unwrap());
    match TokenInstruction::unpack(&bytes).unwrap() {
        TokenInstruction::ProcessSolTokenMultiSigStream { whitelist_v4 } => {
            assert!(whitelist_v4.token_mint == key(3));
            assert_eq!(whitelist_v4.amount, 500);
        }
        other => panic!("{:?}", other),
    }
    bytes[0] = 20;
    assert_eq!(TokenInstruction::unpack(&bytes).err(), Some(invalid()));
}

#[test]
fn proposal_payloads() {
    let p = TransferProposal {
        sender: key(1),
        recipient: key(2),
        signed_by: vec![],
        multisig_safe: key(4),
        amount: 7,
        token_mint: key(3),
    };
    let mut bytes = vec![33u8];
    bytes.extend_from_slice(&p.pack(false).unwrap());
    match TokenInstruction::unpack(&bytes).unwrap() {
        TokenInstruction::ProcessSolTransfer { whitelist_v3 } => {
            assert_eq!(whitelist_v3.amount, 7);
            assert!(whitelist_v3.recipient == key(2));
        }
        other => panic!("{:?}", other),
    }
    let mut bytes = vec![34u8];
    bytes.extend_from_slice(&p.pack(true).unwrap());
    match TokenInstruction::unpack(&bytes).unwrap() {
        TokenInstruction::ProcessTokenTransfer { whitelist_v3 } => {
            assert!(whitelist_v3.token_mint == key(3));
        }
        other => panic!("{:?}", other),
    }
    bytes[0] = 33;
    assert_eq!(TokenInstruction::unpack(&bytes).err(), Some(invalid()));
}
