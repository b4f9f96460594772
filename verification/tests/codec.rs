use stream_escrow::account::AccountInfo;
use stream_escrow::codec::{push_key, push_u32, push_u64, read_key, read_u32, read_u64};
use stream_escrow::error::ProgramError;
use stream_escrow::group::{
    read_ledger, write_ledger, Multisig, TokenWithdraw, TransferProposal, Withdraw,
};
use stream_escrow::keys::Pubkey;
use stream_escrow::record::{Layout, StreamRecord, WhiteList};
use stream_escrow::schedule::Schedule;
use stream_escrow::state::{
    Escrow, EscrowMultisig, SolTransfer, Stream, StreamMultisig, StreamToken, TokenEscrow,
    TokenEscrowMultisig, TokenStreamMultisig, TokenTransfer,
};
use stream_escrow::utils::get_token_balance;

fn key(n: u8) -> Pubkey {
    Pubkey { bytes: [n; 32] }
}

fn members(ns: &[u8]) -> Vec<WhiteList> {
    ns.iter().map(|n| WhiteList { address: key(*n), counter: *n }).collect()
}

fn pairs(list: &[WhiteList]) -> Vec<([u8; 32], u8)> {
    list.iter().map(|w| (w.address.bytes, w.counter)).collect()
}

fn record(signed: &[u8]) -> StreamRecord {
    StreamRecord {
        schedule: Schedule {
            start_time: 0x0102030405060708,
            end_time: u64::MAX,
            paused: 1,
            withdraw_limit: 77,
            amount: 1_000_000_007,
            withdrawn: 12345,
            paused_at: 999,
        },
        sender: key(1),
        recipient: key(2),
        token_mint: key(3),
        signed_by: members(signed),
        multisig_safe: key(4),
        can_cancel: true,
    }
}

#[test]
fn integers_are_little_endian() {
    let mut out = vec![0xaau8];
    push_u64(&mut out, 0x0102030405060708);
    assert_eq!(out, vec![0xaa, 8, 7, 6, 5, 4, 3, 2, 1]);
    assert_eq!(read_u64(&out, 1), 0x0102030405060708);
    let mut out = Vec::new();
    push_u32(&mut out, 0xdeadbeef);
    assert_eq!(out, vec![0xef, 0xbe, 0xad, 0xde]);
    assert_eq!(read_u32(&out, 0), 0xdeadbeef);
    for x in [0u64, 1, 255, 256, u64::MAX, 1 << 63, 0x00ff00ff00ff00ff] {
        let mut out = Vec::new();
        push_u64(&mut out, x);
        assert_eq!(out, x.to_le_bytes().to_vec());
        assert_eq!(read_u64(&out, 0), x);
    }
}

#[test]
fn keys_are_their_bytes() {
    let mut bytes = [0u8; 32];
    for (i, b) in bytes.iter_mut().enumerate() {
        *b = i as u8;
    }
    let mut out = vec![9u8, 9];
    push_key(&mut out, &Pubkey { bytes });
    assert_eq!(out.len(), 34);
    assert_eq!(&out[2..], &bytes[..]);
    assert!(read_key(&out, 2) == Pubkey { bytes });
}

#[test]
fn native_stream_layout() {
    let rec = record(&[]);
    let s = rec.schedule;
    let layout = Layout { token: false, multisig: false, current: true };
    let bytes = rec.pack(layout).unwrap();
    assert_eq!(bytes.len(), 120);
    let expected = borsh::to_vec(&(
        s.start_time,
        s.end_time,
        s.paused,
        s.withdraw_limit,
        s.amount,
        [1u8; 32],
        [2u8; 32],
        s.withdrawn,
        s.paused_at,
    ))
    .unwrap();
    assert_eq!(bytes, expected);
    let back = Stream::unpack(&bytes).unwrap();
    assert_eq!(back.withdrawn, 12345);
    assert_eq!(back.paused_at, 999);
    assert!(back.sender == key(1) && back.recipient == key(2));
    assert_eq!(back.pack().unwrap(), bytes);
    assert!(Stream::unpack(&bytes[..119]).is_err());
    let mut longer = bytes.clone();
    longer.push(0);
    assert_eq!(Stream::unpack(&longer).err(), Some(ProgramError::BorshIoError));
}

#[test]
fn token_stream_layout() {
    let rec = record(&[]);
    let s = rec.schedule;
    let bytes = rec.pack(Layout { token: true, multisig: false, current: true }).unwrap();
    assert_eq!(bytes.len(), 152);
    let expected = borsh::to_vec(&(
        s.start_time,
        s.end_time,
        s.paused,
        s.withdraw_limit,
        s.amount,
        [1u8; 32],
        [2u8; 32],
        [3u8; 32],
        s.withdrawn,
        s.paused_at,
    ))
    .unwrap();
    assert_eq!(bytes, expected);
    let back = StreamToken::unpack(&bytes).unwrap();
    assert!(back.token_mint == key(3));
    assert_eq!(back.withdrawn, 12345);
    assert_eq!(back.pack().unwrap(), bytes);
}

#[test]
fn legacy_layouts() {
    let rec = record(&[]);
    let s = rec.schedule;
    let bytes = rec.pack(Layout { token: false, multisig: false, current: false }).unwrap();
    assert_eq!(bytes.len(), 104);
    assert_eq!(
        bytes,
        borsh::to_vec(&(s.start_time, s.end_time, s.paused, s.withdraw_limit, s.amount, [1u8; 32], [2u8; 32]))
            .unwrap()
    );
    let back = Escrow::unpack(&bytes).unwrap();
    assert_eq!(back.amount, s.amount);
    assert_eq!(back.to_record().schedule.withdrawn, 0);
    assert_eq!(back.pack().unwrap(), bytes);
    let bytes = rec.pack(Layout { token: true, multisig: false, current: false }).unwrap();
    assert_eq!(bytes.len(), 136);
    let back = TokenEscrow::unpack(&bytes).unwrap();
    assert!(back.token_mint == key(3));
    assert_eq!(back.pack().unwrap(), bytes);
}

#[test]
fn multisig_stream_layouts() {
    let rec = record(&[7, 8, 9]);
    let s = rec.schedule;
    let bytes = rec.pack(Layout { token: false, multisig: true, current: true }).unwrap();
    let expected = borsh::to_vec(&(
        s.start_time,
        s.end_time,
        s.paused,
        s.withdraw_limit,
        s.amount,
        [1u8; 32],
        [2u8; 32],
        pairs(&rec.signed_by),
        [4u8; 32],
        true,
        s.withdrawn,
        s.paused_at,
    ))
    .unwrap();
    assert_eq!(bytes, expected);
    assert_eq!(bytes.len(), 104 + 4 + 99 + 33 + 16);
    let mut cell = bytes.clone();
    cell.resize(539, 0xee);
    let account = AccountInfo { key: key(50), is_signer: false, lamports: 0, data: cell, owner: key(9) };
    let back = StreamMultisig::from_account(&account).unwrap();
    assert_eq!(back.signed_by.len(), 3);
    assert!(back.signed_by[2].address == key(9) && back.signed_by[2].counter == 9);
    assert!(back.multisig_safe == key(4));
    assert!(back.can_cancel);
    assert_eq!(back.withdrawn, 12345);
    assert_eq!(back.pack().unwrap(), bytes);

    let bytes = rec.pack(Layout { token: true, multisig: true, current: true }).unwrap();
    let back = TokenStreamMultisig::unpack(&bytes).unwrap();
    assert!(back.token_mint == key(3));
    assert_eq!(back.paused_at, 999);
    assert_eq!(back.pack().unwrap(), bytes);

    let bytes = rec.pack(Layout { token: false, multisig: true, current: false }).unwrap();
    let back = EscrowMultisig::unpack(&bytes).unwrap();
    assert_eq!(back.signed_by.len(), 3);
    assert_eq!(back.pack().unwrap(), bytes);

    let bytes = rec.pack(Layout { token: true, multisig: true, current: false }).unwrap();
    let back = TokenEscrowMultisig::unpack(&bytes).unwrap();
    assert_eq!(back.amount, s.amount);
    assert_eq!(back.pack().unwrap(), bytes);
}

#[test]
fn multisig_stream_rejects_a_bad_flag_and_a_short_cell() {
    let rec = record(&[7]);
    let layout = Layout { token: false, multisig: true, current: true };
    let mut bytes = rec.pack(layout).unwrap();
    let flag = 104 + 4 + 33 + 32;
    assert_eq!(bytes[flag], 1);
    bytes[flag] = 2;
    assert!(StreamRecord::unpack(layout, &bytes).is_err());
    bytes[flag] = 0;
    assert!(!StreamRecord::unpack(layout, &bytes).unwrap().can_cancel);
    assert!(StreamRecord::unpack(layout, &bytes[..bytes.len() - 1]).is_err());
    assert!(StreamRecord::unpack(layout, &bytes[..100]).is_err());
    bytes[104] = 200;
    assert!(StreamRecord::unpack(layout, &bytes).is_err());
}

#[test]
fn group_layout() {
    let g = Multisig { signers: members(&[1, 2, 3]), m: 2, multisig_safe: key(4) };
    let bytes = g.pack().unwrap();
    assert_eq!(bytes, borsh::to_vec(&(pairs(&g.signers), 2u8, [4u8; 32])).unwrap());
    let mut cell = bytes.clone();
    cell.resize(419, 0);
    let back = Multisig::unpack(&cell).unwrap();
    assert_eq!(back.m, 2);
    assert_eq!(back.signers.len(), 3);
    assert!(back.signers[1].address == key(2));
    assert!(back.multisig_safe == key(4));
    assert!(Multisig::unpack(&bytes[..bytes.len() - 1]).is_err());
    assert!(Multisig::unpack(&[1, 0]).is_err());
    let account = AccountInfo { key: key(50), is_signer: false, lamports: 0, data: cell, owner: key(9) };
    assert_eq!(Multisig::from_account(&account).unwrap().signers.len(), 3);
}

#[test]
fn proposal_layouts() {
    let p = TransferProposal {
        sender: key(1),
        recipient: key(2),
        signed_by: members(&[1, 5]),
        multisig_safe: key(4),
        amount: 7,
        token_mint: key(3),
    };
    let bytes = p.pack(false).unwrap();
    assert_eq!(bytes, borsh::to_vec(&([1u8; 32], [2u8; 32], pairs(&p.signed_by), [4u8; 32], 7u64)).unwrap());
    let token = p.pack(true).unwrap();
    assert_eq!(
        token,
        borsh::to_vec(&([1u8; 32], [2u8; 32], pairs(&p.signed_by), [4u8; 32], 7u64, [3u8; 32])).unwrap()
    );
    let mut cell = bytes.clone();
    cell.resize(483, 0);
    let account = AccountInfo { key: key(50), is_signer: false, lamports: 0, data: cell, owner: key(9) };
    let back = SolTransfer::from_account(&account).unwrap();
    assert_eq!(back.amount, 7);
    assert_eq!(back.signed_by.len(), 2);
    assert_eq!(back.pack().unwrap(), bytes);
    let mut cell = token.clone();
    cell.resize(515, 0);
    let account = AccountInfo { key: key(50), is_signer: false, lamports: 0, data: cell, owner: key(9) };
    let back = TokenTransfer::from_account(&account).unwrap();
    assert!(back.token_mint == key(3));
    assert_eq!(back.pack().unwrap(), token);
    assert!(TransferProposal::unpack(true, &bytes).is_err());
    assert!(TransferProposal::unpack(false, &bytes[..67]).is_err());
}

#[test]
fn ledger_layout() {
    assert_eq!(write_ledger(600), 600u64.to_le_bytes().to_vec());
    assert_eq!(read_ledger(&write_ledger(u64::MAX)), Ok(u64::MAX));
    assert_eq!(read_ledger(&[0u8; 7]), Err(ProgramError::BorshIoError));
    assert_eq!(read_ledger(&[0u8; 9]), Err(ProgramError::BorshIoError));
    let w = Withdraw { amount: 42 };
    assert_eq!(w.pack(), borsh::to_vec(&42u64).unwrap());
    assert_eq!(Withdraw::unpack(&w.pack()), Ok(Withdraw { amount: 42 }));
    let t = TokenWithdraw { amount: 43 };
    assert_eq!(TokenWithdraw::unpack(&t.pack()), Ok(TokenWithdraw { amount: 43 }));
    assert!(Withdraw::unpack(&[]).is_err());
}

#[test]
fn typed_records_release_as_the_schedule() {
    let rec = record(&[]);
    let stream = Stream::from_record(rec.clone());
    assert_eq!(stream.allowed_amt(0), 0);
    let s = Stream { start_time: 1000, end_time: 2000, amount: 1000, ..stream };
    assert_eq!(s.allowed_amt(1500), 500);
    assert_eq!(s.allowed_amt(2500), 1000);
    let t = StreamToken { start_time: 1000, end_time: 2000, amount: 999, ..StreamToken::from_record(rec.clone()) };
    assert_eq!(t.allowed_amt(1500), 499);
    let e = Escrow { start_time: 10, end_time: 20, amount: 500, ..Escrow::from_record(rec.clone()) };
    assert_eq!(e.allowed_amt(12), 100);
    let te = TokenEscrow { start_time: 10, end_time: 20, amount: 500, ..TokenEscrow::from_record(rec.clone()) };
    assert_eq!(te.allowed_amt(20), 500);
    let m = StreamMultisig { start_time: 10, end_time: 20, amount: 500, ..StreamMultisig::from_record(rec.clone()) };
    assert_eq!(m.allowed_amt(12), 100);
    let tm = TokenStreamMultisig {
        start_time: 10,
        end_time: 20,
        amount: 500,
        ..TokenStreamMultisig::from_record(rec.clone())
    };
    assert_eq!(tm.allowed_amt(15), 250);
    let em = EscrowMultisig { start_time: 10, end_time: 20, amount: 500, ..EscrowMultisig::from_record(rec.clone()) };
    assert_eq!(em.allowed_amt(10), 0);
    let tem = TokenEscrowMultisig {
        start_time: 10,
        end_time: 20,
        amount: 500,
        ..TokenEscrowMultisig::from_record(rec)
    };
    assert_eq!(tem.allowed_amt(19), 450);
}

#[test]
fn token_balance_is_read_at_its_offset() {
    let mut data = vec![0u8; 165];
    data[64..72].copy_from_slice(&123456789u64.to_le_bytes());
    let account = AccountInfo { key: key(1), is_signer: false, lamports: 0, data, owner: key(2) };
    assert_eq!(get_token_balance(&account), Ok(123456789));
    let short = AccountInfo { key: key(1), is_signer: false, lamports: 0, data: vec![0u8; 164], owner: key(2) };
    assert_eq!(get_token_balance(&short), Err(ProgramError::AccountDataTooSmall));
}
