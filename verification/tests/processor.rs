use stream_escrow::account::{AccountInfo, Action, Tag};
use stream_escrow::checks::Context;
use stream_escrow::error::{ProgramError, TokenError};
use stream_escrow::group::{read_ledger, Multisig, TransferProposal};
use stream_escrow::keys::Pubkey;
use stream_escrow::processor::Processor;
use stream_escrow::record::{Layout, StreamRecord, WhiteList};
use stream_escrow::schedule::Schedule;
use stream_escrow::state::{Stream, StreamMultisig, StreamToken};
use stream_escrow::utils::{
    associated_token_program_id, default_fee_receiver, derive_cell, get_associated_token_address,
    system_program_id, token_program_id,
};

fn key(n: u8) -> Pubkey {
    Pubkey { bytes: [n; 32] }
}

fn custom(e: TokenError) -> ProgramError {
    ProgramError::Custom(e.code())
}

fn input(tag: u8, numbers: &[u64]) -> Vec<u8> {
    let mut v = vec![tag];
    for n in numbers {
        v.extend_from_slice(&n.to_le_bytes());
    }
    v
}

const S: u8 = 1;
const R: u8 = 2;
const MINT: u8 = 5;
const PROGRAM: u8 = 9;
const A: u8 = 11;
const B: u8 = 12;
const C: u8 = 13;
const RECORD: u8 = 20;
const GROUP: u8 = 30;
const PROPOSAL: u8 = 40;
const RENT: u8 = 60;

struct World {
    accounts: Vec<AccountInfo>,
}

impl World {
    fn new() -> World {
        let mut w = World { accounts: Vec::new() };
        for n in [S, R, A, B, C] {
            w.at(key(n)).lamports = 1_000_000;
        }
        w
    }

    fn program(&self) -> Pubkey {
        key(PROGRAM)
    }

    fn fee(&self) -> Pubkey {
        default_fee_receiver().unwrap()
    }

    fn at(&mut self, k: Pubkey) -> &mut AccountInfo {
        if !self.accounts.iter().any(|a| a.key == k) {
            self.accounts.push(AccountInfo {
                key: k,
                is_signer: false,
                lamports: 0,
                data: Vec::new(),
                owner: system_program_id(),
            });
        }
        self.accounts.iter_mut().find(|a| a.key == k).unwrap()
    }

    fn lamports(&mut self, k: Pubkey) -> u64 {
        self.at(k).lamports
    }

    fn tokens(&mut self, k: Pubkey) -> u64 {
        let data = &self.at(k).data;
        u64::from_le_bytes(data[64..72].try_into().unwrap())
    }

    fn set_tokens(&mut self, k: Pubkey, amount: u64) {
        let owner = token_program_id();
        let a = self.at(k);
        if a.data.len() < 165 {
            a.data = vec![0u8; 165];
            a.owner = owner;
        }
        a.data[64..72].copy_from_slice(&amount.to_le_bytes());
    }

    fn cell(&self, tag: Tag, k: Pubkey, mint: Option<Pubkey>) -> Pubkey {
        derive_cell(tag, &k, mint, &key(PROGRAM)).unwrap().0
    }

    fn vault(&self, sender: u8) -> Pubkey {
        self.cell(Tag::Vault, key(sender), None)
    }

    fn ledger(&self, sender: u8) -> Pubkey {
        self.cell(Tag::WithdrawSol, key(sender), None)
    }

    fn token_ledger(&self, sender: u8) -> Pubkey {
        self.cell(Tag::WithdrawToken, key(sender), Some(key(MINT)))
    }

    fn safe(&self) -> Pubkey {
        self.cell(Tag::MultisigSafe, key(GROUP), None)
    }

    fn safe_ledger(&self) -> Pubkey {
        self.cell(Tag::WithdrawMultisigSol, self.safe(), None)
    }

    fn ata(&self, wallet: Pubkey) -> Pubkey {
        get_associated_token_address(&wallet, &key(MINT)).unwrap()
    }

    fn ledger_amount(&mut self, k: Pubkey) -> u64 {
        read_ledger(&self.at(k).data).unwrap()
    }

    fn list(&mut self, entries: &[(Pubkey, bool)]) -> Vec<AccountInfo> {
        entries
            .iter()
            .map(|(k, signer)| {
                let mut a = self.at(*k).clone();
                a.is_signer = *signer;
                a
            })
            .collect()
    }

    fn apply(&mut self, actions: Vec<Action>) {
        for action in actions {
            match action {
                Action::Transfer { from, to, lamports, .. } => {
                    let f = self.at(from);
                    f.lamports = f.lamports.checked_sub(lamports).expect("vault underfunded");
                    self.at(to).lamports += lamports;
                }
                Action::TokenTransfer { source, destination, amount, .. } => {
                    let left = self.tokens(source).checked_sub(amount).expect("token vault underfunded");
                    self.set_tokens(source, left);
                    let got = self.tokens(destination) + amount;
                    self.set_tokens(destination, got);
                }
                Action::CreateAccount { payer, account, space, rent_space, rent_times, owner, .. } => {
                    let rent = rent_space * rent_times;
                    self.at(payer).lamports -= rent;
                    let a = self.at(account);
                    assert!(a.data.is_empty());
                    a.data = vec![0u8; space as usize];
                    a.owner = owner;
                    a.lamports += rent;
                }
                Action::CreateAssociatedTokenAccount { wallet, mint, .. } => {
                    let k = get_associated_token_address(&wallet, &mint).unwrap();
                    assert!(self.at(k).data.is_empty());
                    self.set_tokens(k, 0);
                }
                Action::Close { cell, to } => {
                    let freed = self.at(cell).lamports;
                    self.at(cell).lamports = 0;
                    self.at(to).lamports += freed;
                }
                Action::Write { cell, data } => {
                    let a = self.at(cell);
                    assert!(data.len() <= a.data.len());
                    a.data[..data.len()].copy_from_slice(&data);
                }
            }
        }
        let program = self.program();
        for a in self.accounts.iter_mut() {
            if a.owner == program && a.lamports == 0 {
                a.data = Vec::new();
                a.owner = system_program_id();
            }
        }
    }

    fn try_run(
        &mut self,
        bytes: &[u8],
        now: u64,
        entries: &[(Pubkey, bool)],
    ) -> Result<Vec<Action>, ProgramError> {
        let accounts = self.list(entries);
        let ctx = Context { now, fee_receiver: self.fee() };
        Processor::process(&self.program(), &accounts, bytes, &ctx)
    }

    fn run(&mut self, bytes: &[u8], now: u64, entries: &[(Pubkey, bool)]) -> Result<(), ProgramError> {
        let actions = self.try_run(bytes, now, entries)?;
        self.apply(actions);
        Ok(())
    }

    fn deposit(&mut self, sender: u8, amount: u64) {
        let entries = [(key(sender), true), (self.vault(sender), false), (system_program_id(), false)];
        self.run(&input(7, &[amount]), 0, &entries).unwrap();
    }

    fn create_native(&mut self, now: u64) -> Result<(), ProgramError> {
        let entries = [
            (key(S), true),
            (key(R), false),
            (key(RECORD), false),
            (self.ledger(S), false),
            (system_program_id(), false),
        ];
        self.run(&input(0, &[1000, 2000, 1000]), now, &entries)
    }

    fn release_accounts(&self, sender_signs: bool, recipient_signs: bool) -> Vec<(Pubkey, bool)> {
        vec![
            (key(S), sender_signs),
            (key(R), recipient_signs),
            (self.vault(S), false),
            (key(RECORD), false),
            (self.ledger(S), false),
            (system_program_id(), false),
            (self.fee(), false),
        ]
    }

    fn withdraw_native(&mut self, amount: u64, now: u64) -> Result<(), ProgramError> {
        let entries = self.release_accounts(false, true);
        self.run(&input(1, &[amount]), now, &entries)
    }

    fn stream(&mut self) -> Stream {
        Stream::unpack(&self.at(key(RECORD)).data).unwrap()
    }

    fn funded_native_stream() -> World {
        let mut w = World::new();
        w.deposit(S, 1000);
        w.create_native(900).unwrap();
        w
    }

    fn group(&mut self, members: &[u8], m: u8) -> Result<(), ProgramError> {
        let g = Multisig {
            signers: members.iter().map(|n| WhiteList { address: key(*n), counter: 0 }).collect(),
            m,
            multisig_safe: key(0),
        };
        let mut bytes = vec![16u8];
        bytes.extend_from_slice(&g.pack().unwrap());
        let entries = [
            (key(members[0]), true),
            (key(GROUP), false),
            (system_program_id(), false),
            (self.safe_ledger(), false),
        ];
        self.run(&bytes, 0, &entries)
    }

    fn create_multisig_stream(&mut self, signed: &[u8], now: u64, can_cancel: bool) -> Result<(), ProgramError> {
        let rec = StreamRecord {
            schedule: Schedule::new(10, 20, 500),
            sender: key(0),
            recipient: key(0),
            token_mint: key(0),
            signed_by: signed.iter().map(|n| WhiteList { address: key(*n), counter: 0 }).collect(),
            multisig_safe: key(0),
            can_cancel,
        };
        let mut bytes = vec![20u8];
        bytes.extend_from_slice(&rec.pack(Layout { token: false, multisig: true, current: false }).unwrap());
        let entries = [
            (key(A), true),
            (key(R), false),
            (key(GROUP), false),
            (key(RECORD), false),
            (system_program_id(), false),
            (self.safe_ledger(), false),
        ];
        self.run(&bytes, now, &entries)
    }

    fn sign_stream(&mut self, member: u8, now: u64) -> Result<(), ProgramError> {
        let mut bytes = vec![19u8];
        bytes.extend_from_slice(&[member; 32]);
        bytes.push(0);
        let entries = [
            (key(member), true),
            (key(RECORD), false),
            (key(GROUP), false),
            (self.safe_ledger(), false),
            (system_program_id(), false),
        ];
        self.run(&bytes, now, &entries)
    }

    fn multisig_stream(&mut self) -> StreamMultisig {
        StreamMultisig::unpack(&self.at(key(RECORD)).data).unwrap()
    }

    fn multisig_release_accounts(&self, sender_signs: bool, recipient_signs: bool) -> Vec<(Pubkey, bool)> {
        vec![
            (key(A), sender_signs),
            (key(R), recipient_signs),
            (self.safe(), false),
            (key(RECORD), false),
            (key(GROUP), false),
            (self.safe_ledger(), false),
            (system_program_id(), false),
            (self.fee(), false),
        ]
    }
}

#[test]
fn linear_release_scenario() {
    let mut w = World::funded_native_stream();
    let (vault, ledger, fee) = (w.vault(S), w.ledger(S), w.fee());
    assert_eq!(w.lamports(vault), 1000);
    assert_eq!(w.ledger_amount(ledger), 1000);
    let s = w.stream();
    assert_eq!((s.start_time, s.end_time, s.amount, s.withdrawn, s.paused, s.paused_at), (1000, 2000, 1000, 0, 0, 0));
    assert!(s.sender == key(S) && s.recipient == key(R));
    assert_eq!(w.at(key(RECORD)).data.len(), 120);

    let before = w.lamports(key(R));
    w.withdraw_native(400, 1500).unwrap();
    assert_eq!(w.lamports(key(R)), before + 399);
    assert_eq!(w.lamports(fee), 1);
    assert_eq!(w.lamports(vault), 600);
    assert_eq!(w.stream().withdrawn, 400);
    assert_eq!(w.ledger_amount(ledger), 600);

    let sender_before = w.lamports(key(S));
    let record_rent = w.lamports(key(RECORD));
    let ledger_rent = w.lamports(ledger);
    w.withdraw_native(600, 2000).unwrap();
    assert_eq!(w.lamports(key(R)), before + 399 + 599);
    assert_eq!(w.lamports(fee), 2);
    assert_eq!(w.lamports(vault), 0);
    assert_eq!(w.lamports(key(RECORD)), 0);
    assert_eq!(w.lamports(ledger), 0);
    assert!(w.at(key(RECORD)).data.is_empty());
    assert!(w.at(ledger).data.is_empty());
    assert_eq!(w.lamports(key(S)), sender_before + record_rent + ledger_rent);
}

#[test]
fn withdraw_emits_the_two_transfers_then_the_writes() {
    let mut w = World::funded_native_stream();
    let entries = w.release_accounts(false, true);
    let actions = w.try_run(&input(1, &[400]), 1500, &entries).unwrap();
    assert_eq!(actions.len(), 4);
    let vault = w.vault(S);
    let fee = w.fee();
    match &actions[0] {
        Action::Transfer { from, to, lamports, seeds } => {
            assert!(*from == vault && *to == fee);
            assert_eq!(*lamports, 1);
            let seeds = seeds.unwrap();
            assert_eq!(seeds.tag, Tag::Vault);
            assert!(seeds.key == key(S));
        }
        other => panic!("{:?}", other),
    }
    match &actions[1] {
        Action::Transfer { from, to, lamports, .. } => {
            assert!(*from == vault && *to == key(R));
            assert_eq!(*lamports, 399);
        }
        other => panic!("{:?}", other),
    }
    assert!(matches!(&actions[2], Action::Write { cell, data } if *cell == key(RECORD) && data.len() == 120));
    assert!(
        matches!(&actions[3], Action::Write { cell, data } if *cell == w.ledger(S) && data == &600u64.to_le_bytes().to_vec())
    );
}

#[test]
fn pause_and_resume_scenario() {
    let mut w = World::funded_native_stream();
    let parties = [(key(S), true), (key(R), false), (key(RECORD), false)];
    w.run(&[4], 1400, &parties).unwrap();
    let s = w.stream();
    assert_eq!((s.paused, s.withdraw_limit, s.paused_at), (1, 400, 1400));
    assert_eq!(w.withdraw_native(500, 1600), Err(ProgramError::InsufficientFunds));
    assert_eq!(w.run(&[4], 1500, &parties), Err(custom(TokenError::AlreadyPaused)));
    w.run(&[5], 1600, &parties).unwrap();
    let s = w.stream();
    assert_eq!((s.start_time, s.end_time, s.paused, s.paused_at), (1200, 2200, 0, 0));
    assert_eq!(s.allowed_amt(1600), 400);
    assert_eq!(w.run(&[5], 1700, &parties), Err(custom(TokenError::AlreadyResumed)));
    let by_recipient = [(key(S), false), (key(R), true), (key(RECORD), false)];
    w.run(&[4], 1700, &by_recipient).unwrap();
    let unsigned = [(key(S), false), (key(R), false), (key(RECORD), false)];
    assert_eq!(w.run(&[5], 1800, &unsigned), Err(ProgramError::MissingRequiredSignature));
}

#[test]
fn vault_withdraw_is_blocked_by_reservation() {
    let mut w = World::new();
    w.deposit(S, 1000);
    w.create_native(1200).unwrap();
    w.deposit(S, 100);
    let vault = w.vault(S);
    assert_eq!(w.lamports(vault), 1100);
    let entries = [(key(S), true), (vault, false), (w.ledger(S), false), (system_program_id(), false)];
    assert_eq!(w.run(&input(14, &[950]), 1200, &entries), Err(custom(TokenError::StreamedAmt)));
    assert_eq!(w.lamports(vault), 1100);
    let before = w.lamports(key(S));
    w.run(&input(14, &[50]), 1200, &entries).unwrap();
    assert_eq!(w.lamports(vault), 1050);
    assert_eq!(w.lamports(key(S)), before + 50);
    assert_eq!(w.run(&input(14, &[51]), 1200, &entries), Err(custom(TokenError::StreamedAmt)));
    assert_eq!(w.run(&input(14, &[2000]), 1200, &entries), Err(custom(TokenError::Overflow)));
    let unsigned = [(key(S), false), (vault, false), (w.ledger(S), false), (system_program_id(), false)];
    assert_eq!(w.run(&input(14, &[1]), 1200, &unsigned), Err(ProgramError::MissingRequiredSignature));
}

#[test]
fn vault_withdraw_without_a_ledger_is_free() {
    let mut w = World::new();
    w.deposit(S, 1000);
    let vault = w.vault(S);
    let entries = [(key(S), true), (vault, false), (w.ledger(S), false), (system_program_id(), false)];
    w.run(&input(14, &[1000]), 0, &entries).unwrap();
    assert_eq!(w.lamports(vault), 0);
}

#[test]
fn cancel_mid_flight_scenario() {
    let mut w = World::funded_native_stream();
    let (vault, ledger, fee) = (w.vault(S), w.ledger(S), w.fee());
    let before = w.lamports(key(R));
    let sender_before = w.lamports(key(S));
    let rent = w.lamports(key(RECORD)) + w.lamports(ledger);
    let entries = w.release_accounts(true, false);
    w.run(&[2], 1700, &entries).unwrap();
    assert_eq!(w.lamports(key(R)), before + 699);
    assert_eq!(w.lamports(fee), 1);
    assert_eq!(w.lamports(vault), 300);
    assert_eq!(w.lamports(key(S)), sender_before + rent);
    assert!(w.at(key(RECORD)).data.is_empty());
    assert!(w.at(ledger).data.is_empty());
}

#[test]
fn cancel_needs_the_sender() {
    let mut w = World::funded_native_stream();
    let entries = w.release_accounts(false, true);
    assert_eq!(w.run(&[2], 1700, &entries), Err(ProgramError::MissingRequiredSignature));
    let entries = w.release_accounts(true, false);
    assert_eq!(w.run(&[2], 2000, &entries), Err(custom(TokenError::TimeEnd)));
}

#[test]
fn fund_adds_to_record_and_ledger() {
    let mut w = World::funded_native_stream();
    let ledger = w.ledger(S);
    let entries = [(key(S), true), (key(RECORD), false), (ledger, false)];
    w.run(&input(12, &[3000, 500]), 1500, &entries).unwrap();
    let s = w.stream();
    assert_eq!((s.end_time, s.amount), (3000, 1500));
    assert_eq!(w.ledger_amount(ledger), 1500);
    let other = [(key(R), true), (key(RECORD), false), (ledger, false)];
    assert_eq!(w.run(&input(12, &[3000, 500]), 1500, &other), Err(custom(TokenError::OwnerMismatch)));
}

#[test]
fn creation_is_checked() {
    let mut w = World::new();
    assert_eq!(w.create_native(2000), Err(custom(TokenError::TimeEnd)));
    let entries = [
        (key(S), true),
        (key(R), false),
        (key(RECORD), false),
        (w.ledger(S), false),
        (system_program_id(), false),
    ];
    assert_eq!(w.run(&input(0, &[2000, 2000, 1]), 0, &entries), Err(custom(TokenError::InvalidInstruction)));
    let unsigned = [
        (key(S), false),
        (key(R), false),
        (key(RECORD), false),
        (w.ledger(S), false),
        (system_program_id(), false),
    ];
    assert_eq!(w.run(&input(0, &[1000, 2000, 1]), 0, &unsigned), Err(ProgramError::MissingRequiredSignature));
    let wrong_ledger = [
        (key(S), true),
        (key(R), false),
        (key(RECORD), false),
        (w.ledger(R), false),
        (system_program_id(), false),
    ];
    assert_eq!(w.run(&input(0, &[1000, 2000, 1]), 0, &wrong_ledger), Err(custom(TokenError::PublicKeyMismatch)));
    assert_eq!(w.run(&input(0, &[1000, 2000, 1]), 0, &entries[..4]), Err(ProgramError::NotEnoughAccountKeys));
    w.create_native(900).unwrap();
    assert_eq!(w.create_native(900), Err(custom(TokenError::StreamAlreadyCreated)));
    assert_eq!(w.run(&[200], 0, &entries), Err(custom(TokenError::InvalidInstruction)));
}

#[test]
fn second_stream_adds_to_the_ledger() {
    let mut w = World::funded_native_stream();
    let ledger = w.ledger(S);
    let entries =
        [(key(S), true), (key(R), false), (key(21), false), (ledger, false), (system_program_id(), false)];
    w.run(&input(0, &[1000, 2000, 250]), 900, &entries).unwrap();
    assert_eq!(w.ledger_amount(ledger), 1250);
    w.withdraw_native(400, 1500).unwrap();
    assert_eq!(w.ledger_amount(ledger), 850);
    let other = Stream::unpack(&w.at(key(21)).data).unwrap();
    assert_eq!(w.ledger_amount(ledger), (w.stream().amount - w.stream().withdrawn) + (other.amount - other.withdrawn));
    let huge = [(key(S), true), (key(R), false), (key(22), false), (ledger, false), (system_program_id(), false)];
    assert_eq!(w.run(&input(0, &[1000, 2000, u64::MAX]), 900, &huge), Err(custom(TokenError::Overflow)));
}

#[test]
fn withdrawal_is_held_to_the_record() {
    let mut w = World::funded_native_stream();
    assert_eq!(w.withdraw_native(1, 1000), Err(custom(TokenError::StreamNotStarted)));
    assert_eq!(w.withdraw_native(501, 1500), Err(ProgramError::InsufficientFunds));
    let unsigned = w.release_accounts(false, false);
    assert_eq!(w.run(&input(1, &[1]), 1500, &unsigned), Err(ProgramError::MissingRequiredSignature));
    let mut wrong_fee = w.release_accounts(false, true);
    wrong_fee[6].0 = key(77);
    assert_eq!(w.run(&input(1, &[1]), 1500, &wrong_fee), Err(custom(TokenError::OwnerMismatch)));
    let mut wrong_recipient = w.release_accounts(false, true);
    wrong_recipient[1].0 = key(A);
    assert_eq!(w.run(&input(1, &[1]), 1500, &wrong_recipient), Err(custom(TokenError::EscrowMismatch)));
    let mut wrong_vault = w.release_accounts(false, true);
    wrong_vault[2].0 = w.vault(R);
    assert_eq!(w.run(&input(1, &[1]), 1500, &wrong_vault), Err(custom(TokenError::PublicKeyMismatch)));
    let mut empty_record = w.release_accounts(false, true);
    empty_record[3].0 = key(99);
    w.at(key(99)).owner = key(PROGRAM);
    w.at(key(99)).lamports = 1;
    assert_eq!(w.run(&input(1, &[1]), 1500, &empty_record), Err(ProgramError::UninitializedAccount));
    w.at(key(99)).data = vec![0u8; 120];
    w.at(key(99)).owner = key(S);
    assert_eq!(w.run(&input(1, &[1]), 1500, &empty_record), Err(ProgramError::InvalidArgument));
    let short = w.release_accounts(false, true);
    assert_eq!(w.run(&input(1, &[1]), 1500, &short[..3]), Err(ProgramError::NotEnoughAccountKeys));
    assert_eq!(w.run(&input(1, &[1]), 1500, &short[..6]), Err(ProgramError::NotEnoughAccountKeys));
}

#[test]
fn legacy_record_goes_to_the_legacy_handler() {
    let mut w = World::new();
    w.deposit(S, 1000);
    let rec = StreamRecord {
        schedule: Schedule::new(1000, 2000, 1000),
        sender: key(S),
        recipient: key(R),
        token_mint: key(0),
        signed_by: Vec::new(),
        multisig_safe: key(0),
        can_cancel: false,
    };
    let data = rec.pack(Layout { token: false, multisig: false, current: false }).unwrap();
    assert_eq!(data.len(), 104);
    {
        let cell = w.at(key(RECORD));
        cell.data = data;
        cell.owner = key(PROGRAM);
        cell.lamports = 5;
    }
    let ledger = w.ledger(S);
    {
        let cell = w.at(ledger);
        cell.data = 1000u64.to_le_bytes().to_vec();
        cell.owner = key(PROGRAM);
        cell.lamports = 5;
    }
    w.withdraw_native(400, 1500).unwrap();
    let left = stream_escrow::state::Escrow::unpack(&w.at(key(RECORD)).data).unwrap();
    assert_eq!(left.amount, 600);
    assert_eq!(w.ledger_amount(ledger), 600);
    let parties = [(key(S), true), (key(R), false), (key(RECORD), false)];
    assert_eq!(w.run(&[4], 1600, &parties), Err(ProgramError::BorshIoError));
    assert_eq!(w.run(&[5], 1600, &parties), Err(ProgramError::BorshIoError));
}

#[test]
fn multisig_two_of_three_scenario() {
    let mut w = World::new();
    w.group(&[A, B, C], 2).unwrap();
    let group = Multisig::unpack(&w.at(key(GROUP)).data).unwrap();
    assert_eq!(group.m, 2);
    assert!(group.multisig_safe == w.safe());
    assert_eq!(w.at(key(GROUP)).data.len(), 419);
    let ledger = w.safe_ledger();
    assert_eq!(w.ledger_amount(ledger), 0);

    w.create_multisig_stream(&[A], 5, true).unwrap();
    let s = w.multisig_stream();
    assert_eq!((s.start_time, s.end_time, s.amount, s.paused, s.paused_at, s.withdrawn), (10, 20, 500, 1, 0, 0));
    assert!(s.sender == key(A) && s.recipient == key(R) && s.multisig_safe == w.safe());
    assert_eq!(s.signed_by.len(), 1);
    assert_eq!(w.at(key(RECORD)).data.len(), 539);
    assert_eq!(w.ledger_amount(ledger), 500);

    w.sign_stream(B, 5).unwrap();
    let s = w.multisig_stream();
    assert_eq!(s.signed_by.len(), 2);
    assert!(s.signed_by[0].address == key(A) && s.signed_by[1].address == key(B));
    assert_eq!(s.paused, 0);

    let before = w.at(key(RECORD)).data.clone();
    assert_eq!(w.sign_stream(A, 5), Err(custom(TokenError::PublicKeyMismatch)));
    assert_eq!(w.sign_stream(B, 6), Err(custom(TokenError::PublicKeyMismatch)));
    assert_eq!(w.at(key(RECORD)).data, before);

    let reject = [(key(C), true), (key(RECORD), false), (key(GROUP), false), (ledger, false)];
    w.run(&[25], 5, &reject).unwrap();
    assert!(w.at(key(RECORD)).data.is_empty());
    assert_eq!(w.lamports(key(RECORD)), 0);
    assert!(w.at(ledger).data.is_empty());
}

#[test]
fn multisig_stream_pays_once_approved() {
    let mut w = World::new();
    w.group(&[A, B, C], 2).unwrap();
    w.deposit(A, 1000);
    let swap = [
        (key(A), true),
        (w.vault(A), false),
        (w.safe(), false),
        (key(GROUP), false),
        (w.ledger(A), false),
        (system_program_id(), false),
    ];
    w.run(&input(17, &[600]), 0, &swap).unwrap();
    let safe = w.safe();
    assert_eq!(w.lamports(safe), 600);
    w.create_multisig_stream(&[A], 5, true).unwrap();

    let entries = w.multisig_release_accounts(false, true);
    assert_eq!(w.run(&input(21, &[100]), 12, &entries), Err(ProgramError::MissingRequiredSignature));
    let parties = [(key(A), true), (key(R), false), (key(RECORD), false), (key(GROUP), false)];
    assert_eq!(w.run(&[24], 12, &parties), Err(custom(TokenError::AlreadyResumed)));

    w.sign_stream(B, 9).unwrap();
    assert_eq!(w.sign_stream(C, 11), Err(custom(TokenError::TimeEnd)));
    let before = w.lamports(key(R));
    let fee = w.fee();
    w.run(&input(21, &[100]), 12, &entries).unwrap();
    assert_eq!(w.lamports(key(R)), before + 100);
    assert_eq!(w.lamports(fee), 0);
    assert_eq!(w.lamports(safe), 500);
    assert_eq!(w.multisig_stream().withdrawn, 100);
    let ledger = w.safe_ledger();
    assert_eq!(w.ledger_amount(ledger), 400);
    assert_eq!(w.run(&input(21, &[1]), 12, &entries), Err(ProgramError::InsufficientFunds));

    w.run(&[23], 14, &parties).unwrap();
    let s = w.multisig_stream();
    assert_eq!((s.paused, s.withdraw_limit, s.paused_at), (1, 100, 14));
    w.run(&[24], 16, &parties).unwrap();
    let s = w.multisig_stream();
    assert_eq!((s.start_time, s.end_time, s.paused), (12, 22, 0));

    let outsider = [(key(S), true), (key(R), false), (key(RECORD), false), (key(GROUP), false)];
    assert_eq!(w.run(&[23], 17, &outsider), Err(ProgramError::MissingRequiredSignature));

    let cancel = w.multisig_release_accounts(true, false);
    w.run(&[22], 17, &cancel).unwrap();
    assert_eq!(w.lamports(key(R)), before + 100 + 150);
    assert_eq!(w.lamports(safe), 350);
    assert!(w.at(key(RECORD)).data.is_empty());
    assert!(w.at(ledger).data.is_empty());
}

#[test]
fn multisig_stream_without_the_right_to_cancel() {
    let mut w = World::new();
    w.group(&[A, B], 1).unwrap();
    w.create_multisig_stream(&[], 5, false).unwrap();
    let cancel = w.multisig_release_accounts(true, false);
    assert_eq!(w.run(&[22], 12, &cancel), Err(custom(TokenError::CancelNotAllowed)));
}

#[test]
fn multisig_requests_are_checked() {
    let mut w = World::new();
    assert_eq!(w.group(&[A, B], 0), Err(custom(TokenError::InvalidInstruction)));
    assert_eq!(w.group(&[A, B], 3), Err(custom(TokenError::InvalidInstruction)));
    assert_eq!(w.group(&[A, A], 1), Err(custom(TokenError::InvalidInstruction)));
    assert_eq!(
        w.group(&[1, 2, 3, 4, 5, 6, 7, 8, 11, 12, 13, 14], 1),
        Err(custom(TokenError::InvalidInstruction))
    );
    w.group(&[A, B], 2).unwrap();
    assert_eq!(w.group(&[A, B], 2), Err(custom(TokenError::StreamAlreadyCreated)));
    assert_eq!(w.create_multisig_stream(&[C], 5, true), Err(custom(TokenError::InvalidInstruction)));
    assert_eq!(w.create_multisig_stream(&[A, A], 5, true), Err(custom(TokenError::InvalidInstruction)));
    w.create_multisig_stream(&[], 5, true).unwrap();
    assert_eq!(w.sign_stream(C, 5), Err(ProgramError::MissingRequiredSignature));
    let ledger = w.safe_ledger();
    let reject = [(key(C), true), (key(RECORD), false), (key(GROUP), false), (ledger, false)];
    assert_eq!(w.run(&[25], 5, &reject), Err(ProgramError::MissingRequiredSignature));
    let late = [(key(B), true), (key(RECORD), false), (key(GROUP), false), (ledger, false)];
    assert_eq!(w.run(&[25], 11, &late), Err(custom(TokenError::TimeEnd)));
}

#[test]
fn transfer_proposal_scenario() {
    let mut w = World::new();
    w.group(&[A, B], 2).unwrap();
    let safe = w.safe();
    w.at(safe).lamports = 10;
    let p = TransferProposal {
        sender: key(0),
        recipient: key(0),
        signed_by: Vec::new(),
        multisig_safe: key(0),
        amount: 7,
        token_mint: key(0),
    };
    let mut bytes = vec![33u8];
    bytes.extend_from_slice(&p.pack(false).unwrap());
    let propose =
        [(key(A), true), (key(R), false), (key(GROUP), false), (key(PROPOSAL), false), (system_program_id(), false)];
    w.run(&bytes, 0, &propose).unwrap();
    assert_eq!(w.at(key(PROPOSAL)).data.len(), 483);
    let stored = TransferProposal::unpack(false, &w.at(key(PROPOSAL)).data).unwrap();
    assert!(stored.sender == key(A) && stored.recipient == key(R) && stored.multisig_safe == safe);
    assert_eq!(stored.amount, 7);

    let sign = |m: u8| {
        vec![
            (key(m), true),
            (key(R), false),
            (safe, false),
            (key(GROUP), false),
            (key(PROPOSAL), false),
            (system_program_id(), false),
        ]
    };
    let before = w.lamports(key(R));
    w.run(&[35], 0, &sign(A)).unwrap();
    assert_eq!(w.lamports(key(R)), before);
    assert_eq!(TransferProposal::unpack(false, &w.at(key(PROPOSAL)).data).unwrap().signed_by.len(), 1);
    assert_eq!(w.run(&[35], 0, &sign(A)), Err(custom(TokenError::PublicKeyMismatch)));
    assert_eq!(w.run(&[35], 0, &sign(C)), Err(ProgramError::MissingRequiredSignature));
    w.run(&[35], 0, &sign(B)).unwrap();
    assert_eq!(w.lamports(key(R)), before + 7);
    assert_eq!(w.lamports(safe), 3);
    assert!(w.at(key(PROPOSAL)).data.is_empty());
}

#[test]
fn transfer_proposal_can_be_rejected() {
    let mut w = World::new();
    w.group(&[A, B], 2).unwrap();
    let p = TransferProposal {
        sender: key(0),
        recipient: key(0),
        signed_by: vec![WhiteList { address: key(A), counter: 0 }],
        multisig_safe: key(0),
        amount: 7,
        token_mint: key(0),
    };
    let mut bytes = vec![33u8];
    bytes.extend_from_slice(&p.pack(false).unwrap());
    let propose =
        [(key(A), true), (key(R), false), (key(GROUP), false), (key(PROPOSAL), false), (system_program_id(), false)];
    w.run(&bytes, 0, &propose).unwrap();
    let reject = [(key(B), true), (key(GROUP), false), (key(PROPOSAL), false)];
    let outsider = [(key(C), true), (key(GROUP), false), (key(PROPOSAL), false)];
    assert_eq!(w.run(&[37], 0, &outsider), Err(ProgramError::MissingRequiredSignature));
    let before = w.lamports(key(B));
    let rent = w.lamports(key(PROPOSAL));
    w.run(&[37], 0, &reject).unwrap();
    assert_eq!(w.lamports(key(B)), before + rent);
    assert!(w.at(key(PROPOSAL)).data.is_empty());
}

fn token_world() -> World {
    let mut w = World::new();
    let source = w.ata(key(S));
    w.set_tokens(source, 5000);
    let vault = w.vault(S);
    let entries = [
        (key(S), true),
        (vault, false),
        (token_program_id(), false),
        (key(MINT), false),
        (key(RENT), false),
        (source, false),
        (w.ata(vault), false),
        (system_program_id(), false),
        (associated_token_program_id(), false),
    ];
    w.run(&input(11, &[1000]), 0, &entries).unwrap();
    let create = [
        (key(S), true),
        (key(R), false),
        (key(RECORD), false),
        (w.token_ledger(S), false),
        (token_program_id(), false),
        (system_program_id(), false),
        (key(MINT), false),
    ];
    w.run(&input(3, &[1000, 2000, 1000]), 900, &create).unwrap();
    w
}

fn token_release_accounts(w: &World, cancel: bool) -> Vec<(Pubkey, bool)> {
    let vault = w.vault(S);
    let (first, second) = if cancel { (w.ata(key(R)), w.ata(vault)) } else { (w.ata(vault), w.ata(key(R))) };
    vec![
        (key(S), cancel),
        (key(R), !cancel),
        (vault, false),
        (key(RECORD), false),
        (w.token_ledger(S), false),
        (token_program_id(), false),
        (key(MINT), false),
        (key(RENT), false),
        (first, false),
        (second, false),
        (associated_token_program_id(), false),
        (system_program_id(), false),
        (w.fee(), false),
        (w.ata(w.fee()), false),
    ]
}

#[test]
fn token_stream_releases_tokens() {
    let mut w = token_world();
    let vault_tokens = w.ata(w.vault(S));
    let ledger = w.token_ledger(S);
    assert_eq!(w.tokens(vault_tokens), 1000);
    assert_eq!(w.ledger_amount(ledger), 1000);
    let s = StreamToken::unpack(&w.at(key(RECORD)).data).unwrap();
    assert!(s.token_mint == key(MINT));
    assert_eq!(w.at(key(RECORD)).data.len(), 152);

    let entries = token_release_accounts(&w, false);
    let actions = w.try_run(&input(6, &[400]), 1500, &entries).unwrap();
    assert!(matches!(&actions[0], Action::CreateAssociatedTokenAccount { payer, wallet, .. } if *payer == key(R) && *wallet == key(R)));
    assert!(matches!(&actions[1], Action::CreateAssociatedTokenAccount { payer, wallet, .. } if *payer == key(R) && *wallet == w.fee()));
    w.apply(actions);
    let (recipient_tokens, fee_tokens) = (w.ata(key(R)), w.ata(w.fee()));
    assert_eq!(w.tokens(recipient_tokens), 399);
    assert_eq!(w.tokens(fee_tokens), 1);
    assert_eq!(w.tokens(vault_tokens), 600);
    assert_eq!(w.ledger_amount(ledger), 600);
    assert_eq!(StreamToken::unpack(&w.at(key(RECORD)).data).unwrap().withdrawn, 400);

    let free = [
        (key(S), true),
        (token_program_id(), false),
        (key(MINT), false),
        (w.ata(key(S)), false),
        (w.vault(S), false),
        (ledger, false),
        (vault_tokens, false),
        (system_program_id(), false),
    ];
    assert_eq!(w.run(&input(15, &[1]), 1500, &free), Err(custom(TokenError::StreamedAmt)));

    let cancel = token_release_accounts(&w, true);
    w.run(&[8], 1700, &cancel).unwrap();
    assert_eq!(w.tokens(recipient_tokens), 399 + 300);
    assert_eq!(w.tokens(fee_tokens), 1);
    assert_eq!(w.tokens(vault_tokens), 300);
    assert!(w.at(key(RECORD)).data.is_empty());
    w.run(&input(15, &[300]), 1800, &free).unwrap();
    assert_eq!(w.tokens(vault_tokens), 0);
    let sender_tokens = w.ata(key(S));
    assert_eq!(w.tokens(sender_tokens), 4000 + 300);
}

#[test]
fn token_requests_are_checked() {
    let mut w = token_world();
    let mut entries = token_release_accounts(&w, false);
    entries[5].0 = key(77);
    assert_eq!(w.run(&input(6, &[1]), 1500, &entries), Err(ProgramError::IncorrectProgramId));
    let mut entries = token_release_accounts(&w, false);
    entries[6].0 = key(78);
    assert_eq!(w.run(&input(6, &[1]), 1500, &entries), Err(custom(TokenError::PublicKeyMismatch)));
    let mut entries = token_release_accounts(&w, false);
    entries[9].0 = w.ata(key(S));
    assert_eq!(w.run(&input(6, &[1]), 1500, &entries), Err(custom(TokenError::PublicKeyMismatch)));
    let mut broken = token_release_accounts(&w, false);
    let junk = key(79);
    w.at(junk).data = vec![1u8; 10];
    w.at(junk).owner = key(PROGRAM);
    broken[3].0 = junk;
    assert_eq!(w.run(&input(6, &[1]), 1500, &broken), Err(ProgramError::BorshIoError));
    let vault_tokens = w.ata(w.vault(S));
    w.at(vault_tokens).data.truncate(100);
    let free = [
        (key(S), true),
        (token_program_id(), false),
        (key(MINT), false),
        (w.ata(key(S)), false),
        (w.vault(S), false),
        (w.token_ledger(S), false),
        (vault_tokens, false),
        (system_program_id(), false),
    ];
    assert_eq!(w.run(&input(15, &[1]), 1500, &free), Err(ProgramError::AccountDataTooSmall));
}

#[test]
fn token_stream_pause_resume_and_fund() {
    let mut w = token_world();
    let parties = [(key(S), true), (key(R), false), (key(RECORD), false)];
    w.run(&[9], 1400, &parties).unwrap();
    let s = StreamToken::unpack(&w.at(key(RECORD)).data).unwrap();
    assert_eq!((s.paused, s.withdraw_limit, s.paused_at), (1, 400, 1400));
    w.run(&[10], 1600, &parties).unwrap();
    let s = StreamToken::unpack(&w.at(key(RECORD)).data).unwrap();
    assert_eq!((s.start_time, s.end_time, s.paused, s.paused_at), (1200, 2200, 0, 0));
    let ledger = w.token_ledger(S);
    let fund = [(key(S), true), (key(RECORD), false), (ledger, false)];
    w.run(&input(13, &[3200, 250]), 1600, &fund).unwrap();
    let s = StreamToken::unpack(&w.at(key(RECORD)).data).unwrap();
    assert_eq!((s.end_time, s.amount), (3200, 1250));
    assert_eq!(w.ledger_amount(ledger), 1250);
    let native_ledger = w.ledger(S);
    let wrong = [(key(S), true), (key(RECORD), false), (native_ledger, false)];
    assert_eq!(w.run(&input(13, &[3200, 250]), 1600, &wrong), Err(custom(TokenError::PublicKeyMismatch)));
}

#[test]
fn token_swap_moves_unreserved_tokens_into_the_safe() {
    let mut w = token_world();
    w.group(&[A, B], 2).unwrap();
    let vault = w.vault(S);
    let safe = w.safe();
    let entries = vec![
        (key(S), true),
        (safe, false),
        (key(GROUP), false),
        (token_program_id(), false),
        (key(MINT), false),
        (w.ata(key(S)), false),
        (vault, false),
        (w.token_ledger(S), false),
        (w.ata(safe), false),
        (w.ata(vault), false),
        (key(RENT), false),
        (associated_token_program_id(), false),
        (system_program_id(), false),
    ];
    assert_eq!(w.run(&input(18, &[1]), 0, &entries), Err(custom(TokenError::StreamedAmt)));
    let source = w.ata(key(S));
    let deposit = [
        (key(S), true),
        (vault, false),
        (token_program_id(), false),
        (key(MINT), false),
        (key(RENT), false),
        (source, false),
        (w.ata(vault), false),
        (system_program_id(), false),
        (associated_token_program_id(), false),
    ];
    w.run(&input(11, &[500]), 0, &deposit).unwrap();
    let actions = w.try_run(&input(18, &[500]), 0, &entries).unwrap();
    assert_eq!(actions.len(), 2);
    assert!(matches!(&actions[0], Action::CreateAssociatedTokenAccount { payer, wallet, .. } if *payer == key(S) && *wallet == safe));
    w.apply(actions);
    let (safe_tokens, vault_tokens) = (w.ata(safe), w.ata(vault));
    assert_eq!(w.tokens(safe_tokens), 500);
    assert_eq!(w.tokens(vault_tokens), 1000);
    assert_eq!(w.run(&input(18, &[1]), 0, &entries), Err(custom(TokenError::StreamedAmt)));
    let mut wrong_safe = entries.clone();
    wrong_safe[1].0 = key(C);
    assert_eq!(w.run(&input(18, &[0]), 0, &wrong_safe), Err(custom(TokenError::PublicKeyMismatch)));
}

fn token_multisig_world() -> World {
    let mut w = World::new();
    w.group(&[A, B, C], 2).unwrap();
    let safe = w.safe();
    let safe_tokens = w.ata(safe);
    w.set_tokens(safe_tokens, 800);
    let rec = StreamRecord {
        schedule: Schedule::new(10, 20, 500),
        sender: key(0),
        recipient: key(0),
        token_mint: key(0),
        signed_by: vec![WhiteList { address: key(A), counter: 0 }],
        multisig_safe: key(0),
        can_cancel: true,
    };
    let mut bytes = vec![26u8];
    bytes.extend_from_slice(&rec.pack(Layout { token: true, multisig: true, current: false }).unwrap());
    let ledger = w.cell(Tag::WithdrawMultisigSol, safe, Some(key(MINT)));
    let entries = [
        (key(A), true),
        (key(R), false),
        (key(RECORD), false),
        (key(GROUP), false),
        (token_program_id(), false),
        (system_program_id(), false),
        (key(MINT), false),
        (ledger, false),
    ];
    w.run(&bytes, 5, &entries).unwrap();
    w
}

fn token_multisig_release(w: &World, cancel: bool) -> Vec<(Pubkey, bool)> {
    let safe = w.safe();
    let ledger = w.cell(Tag::WithdrawMultisigSol, safe, Some(key(MINT)));
    let (first, second) = if cancel { (w.ata(key(R)), w.ata(safe)) } else { (w.ata(safe), w.ata(key(R))) };
    let (third, fourth) = if cancel { (key(RECORD), key(GROUP)) } else { (key(GROUP), key(RECORD)) };
    vec![
        (key(A), cancel),
        (key(R), !cancel),
        (safe, false),
        (third, false),
        (fourth, false),
        (ledger, false),
        (token_program_id(), false),
        (key(MINT), false),
        (key(RENT), false),
        (first, false),
        (second, false),
        (associated_token_program_id(), false),
        (system_program_id(), false),
        (w.fee(), false),
        (w.ata(w.fee()), false),
    ]
}

#[test]
fn token_multisig_stream_scenario() {
    let mut w = token_multisig_world();
    let safe = w.safe();
    let ledger = w.cell(Tag::WithdrawMultisigSol, safe, Some(key(MINT)));
    assert_eq!(w.at(key(RECORD)).data.len(), 571);
    assert_eq!(w.ledger_amount(ledger), 500);
    let s = stream_escrow::state::TokenStreamMultisig::unpack(&w.at(key(RECORD)).data).unwrap();
    assert!(s.token_mint == key(MINT) && s.multisig_safe == safe);
    assert_eq!((s.paused, s.signed_by.len()), (1, 1));

    let release = token_multisig_release(&w, false);
    assert_eq!(w.run(&input(27, &[100]), 12, &release), Err(ProgramError::MissingRequiredSignature));

    let mut sign = vec![32u8];
    sign.extend_from_slice(&[B; 32]);
    sign.push(0);
    let signing = |m: u8| {
        vec![(key(m), true), (key(RECORD), false), (key(GROUP), false), (ledger, false), (system_program_id(), false)]
    };
    w.run(&sign, 7, &signing(B)).unwrap();
    assert_eq!(w.run(&sign, 7, &signing(B)), Err(custom(TokenError::PublicKeyMismatch)));
    let s = stream_escrow::state::TokenStreamMultisig::unpack(&w.at(key(RECORD)).data).unwrap();
    assert_eq!((s.paused, s.signed_by.len()), (0, 2));

    w.run(&input(27, &[200]), 14, &release).unwrap();
    let (recipient_tokens, safe_tokens) = (w.ata(key(R)), w.ata(safe));
    assert_eq!(w.tokens(recipient_tokens), 200);
    assert_eq!(w.tokens(safe_tokens), 600);
    assert_eq!(w.ledger_amount(ledger), 300);

    let parties = [(key(B), true), (key(R), false), (key(RECORD), false), (key(GROUP), false)];
    w.run(&[29], 15, &parties).unwrap();
    let s = stream_escrow::state::TokenStreamMultisig::unpack(&w.at(key(RECORD)).data).unwrap();
    assert_eq!((s.paused, s.withdraw_limit, s.paused_at), (1, 50, 15));
    w.run(&[30], 16, &parties).unwrap();
    let s = stream_escrow::state::TokenStreamMultisig::unpack(&w.at(key(RECORD)).data).unwrap();
    assert_eq!((s.start_time, s.end_time, s.paused), (11, 21, 0));

    let cancel = token_multisig_release(&w, true);
    w.run(&[28], 17, &cancel).unwrap();
    assert_eq!(w.tokens(recipient_tokens), 200 + 100);
    assert_eq!(w.tokens(safe_tokens), 500);
    assert!(w.at(key(RECORD)).data.is_empty());
    assert!(w.at(ledger).data.is_empty());
}

#[test]
fn token_multisig_stream_can_be_rejected() {
    let mut w = token_multisig_world();
    let safe = w.safe();
    let ledger = w.cell(Tag::WithdrawMultisigSol, safe, Some(key(MINT)));
    let before = w.lamports(key(A));
    let rent = w.lamports(key(RECORD)) + w.lamports(ledger);
    let reject = [(key(C), true), (key(A), false), (key(RECORD), false), (key(GROUP), false), (ledger, false)];
    let unsigned = [(key(C), false), (key(A), false), (key(RECORD), false), (key(GROUP), false), (ledger, false)];
    assert_eq!(w.run(&[31], 5, &unsigned), Err(ProgramError::MissingRequiredSignature));
    let native_ledger = w.safe_ledger();
    let wrong = [(key(C), true), (key(A), false), (key(RECORD), false), (key(GROUP), false), (native_ledger, false)];
    assert_eq!(w.run(&[31], 5, &wrong), Err(custom(TokenError::PublicKeyMismatch)));
    w.run(&[31], 5, &reject).unwrap();
    assert_eq!(w.lamports(key(A)), before + rent);
    assert!(w.at(key(RECORD)).data.is_empty());
    assert!(w.at(ledger).data.is_empty());
}

#[test]
fn token_transfer_proposal_scenario() {
    let mut w = World::new();
    w.group(&[A, B], 2).unwrap();
    let safe = w.safe();
    let safe_tokens = w.ata(safe);
    w.set_tokens(safe_tokens, 10);
    let p = TransferProposal {
        sender: key(0),
        recipient: key(0),
        signed_by: vec![WhiteList { address: key(A), counter: 0 }],
        multisig_safe: key(0),
        amount: 7,
        token_mint: key(0),
    };
    let mut bytes = vec![34u8];
    bytes.extend_from_slice(&p.pack(true).unwrap());
    let propose = [
        (key(A), true),
        (key(R), false),
        (key(GROUP), false),
        (key(PROPOSAL), false),
        (key(MINT), false),
        (system_program_id(), false),
    ];
    w.run(&bytes, 0, &propose).unwrap();
    assert_eq!(w.at(key(PROPOSAL)).data.len(), 515);
    let stored = TransferProposal::unpack(true, &w.at(key(PROPOSAL)).data).unwrap();
    assert!(stored.token_mint == key(MINT));
    let sign = |w: &World, m: u8| {
        vec![
            (key(m), true),
            (key(R), false),
            (safe, false),
            (key(GROUP), false),
            (key(PROPOSAL), false),
            (token_program_id(), false),
            (key(MINT), false),
            (key(RENT), false),
            (w.ata(safe), false),
            (w.ata(key(R)), false),
            (associated_token_program_id(), false),
            (system_program_id(), false),
        ]
    };
    let entries = sign(&w, A);
    assert_eq!(w.run(&[36], 0, &entries), Err(custom(TokenError::PublicKeyMismatch)));
    let entries = sign(&w, B);
    let actions = w.try_run(&[36], 0, &entries).unwrap();
    assert_eq!(actions.len(), 4);
    w.apply(actions);
    let recipient_tokens = w.ata(key(R));
    assert_eq!(w.tokens(recipient_tokens), 7);
    assert_eq!(w.tokens(safe_tokens), 3);
    assert!(w.at(key(PROPOSAL)).data.is_empty());

    w.run(&bytes, 0, &propose).unwrap();
    let reject = [(key(B), true), (key(GROUP), false), (key(PROPOSAL), false)];
    w.run(&[38], 0, &reject).unwrap();
    assert!(w.at(key(PROPOSAL)).data.is_empty());
}

#[test]
fn handlers_can_be_called_directly() {
    let mut w = World::funded_native_stream();
    let ctx = Context { now: 1500, fee_receiver: w.fee() };
    let entries = w.release_accounts(false, true);
    let accounts = w.list(&entries);
    let direct = Processor::process_sol_withdraw_stream(&key(PROGRAM), &accounts, 400, &ctx).unwrap();
    let routed = Processor::process(&key(PROGRAM), &accounts, &input(1, &[400]), &ctx).unwrap();
    assert_eq!(direct.len(), routed.len());
    assert_eq!(
        Processor::process_sol_withdraw_stream_deprecated(&key(PROGRAM), &accounts, 400, &ctx).err(),
        Some(ProgramError::BorshIoError)
    );
    assert_eq!(
        Processor::process_sol_stream(&key(PROGRAM), &accounts, 1000, 2000, 1, &ctx).err(),
        Some(ProgramError::MissingRequiredSignature)
    );
    let data = stream_escrow::state::EscrowMultisig {
        start_time: 1,
        end_time: 2,
        paused: 0,
        withdraw_limit: 0,
        amount: 1,
        sender: key(0),
        recipient: key(0),
        signed_by: Vec::new(),
        multisig_safe: key(0),
        can_cancel: false,
    };
    assert_eq!(
        Processor::process_sol_stream_multisig(&key(PROGRAM), &accounts[..5], data, &ctx).err(),
        Some(ProgramError::NotEnoughAccountKeys)
    );
}
