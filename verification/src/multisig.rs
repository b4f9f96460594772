//! The multisig workflows: the creation of a group, the approval and the
//! rejection of a stream that waits, and one-shot transfer proposals.
use vstd::prelude::*;
use crate::account::{emit, no_actions, views, AccountInfo, Action, ActionView, Seeds, Tag};
use crate::checks::{
    approvals_valid, check_approvals, check_cell, check_token_account, checked_cell,
    create_cell, emit_ledger_update, emit_record_update, is_token_account_of, ledger_mint,
    ledger_update, load_group, load_ledger, load_proposal, load_record, loaded_group,
    loaded_ledger, loaded_proposal, loaded_record, record_update, Context,
};
use crate::error::{custom, ProgramError, TokenError};
use crate::group::{
    all_distinct, contains_key, distinct, is_member, multisig_bytes, proposal_bytes, Multisig,
    MultisigView, TransferProposal, TransferProposalView,
};
use crate::keys::{zero_key, zero_pubkey, Pubkey};
use crate::record::{record_bytes, Layout, StreamRecordView, WhiteList};
use crate::schedule::Schedule;
use crate::stream::{cancelled, outcome_is, Roles};
use crate::utils::{
    cell_address, create_pda_account, create_pda_account_signed, create_transfer, derive_cell,
    token_program_key,
};

verus! {

/// The approval of `key`.
pub open spec fn approval_of(key: Pubkey) -> WhiteList {
    WhiteList { address: key, counter: 0 }
}

/// What the creation of a group does. The payer signs; the group has between
/// one and eleven distinct members and a threshold that they can meet; its
/// cell is empty. The group's native reservation ledger is created in
/// advance, then the group's cell, which takes the members, the threshold
/// and the address of the group's safe.
pub open spec fn create_multisig_spec(
    program: Pubkey,
    a: Seq<AccountInfo>,
    roles: Roles,
    signers: Seq<WhiteList>,
    m: u8,
) -> Result<Seq<ActionView>, ProgramError> {
    let source = a[roles.source as int];
    let group = a[roles.group as int];
    let ledger = a[roles.ledger as int];
    let safe = cell_address(Tag::MultisigSafe, group.key, None, program);
    if !source.is_signer {
        Err(ProgramError::MissingRequiredSignature)
    } else if !(1 <= m <= signers.len() <= 11 && distinct(signers)) {
        Err(custom(TokenError::InvalidInstruction))
    } else if group.data@.len() != 0 {
        Err(custom(TokenError::StreamAlreadyCreated))
    } else if safe is None {
        Err(custom(TokenError::PublicKeyMismatch))
    } else {
        match checked_cell(program, ledger, Tag::WithdrawMultisigSol, safe->Some_0.0, None) {
            Err(e) => Err(e),
            Ok(seeds) => Ok(
                seq![
                    create_cell(source.key, ledger.key, 8, 8, 1, program, Some(seeds)),
                    create_cell(source.key, group.key, 419, 443, 1, program, None),
                    ActionView::Write {
                        cell: group.key,
                        data: multisig_bytes(
                            MultisigView { signers, m, multisig_safe: safe->Some_0.0 },
                        ),
                    },
                ],
            ),
        }
    }
}

/// Creates a multisig group.
pub fn create_multisig(
    program_id: &Pubkey,
    accounts: &[AccountInfo],
    roles: &Roles,
    signers: Vec<WhiteList>,
    m: u8,
) -> (r: Result<Vec<Action>, ProgramError>)
    requires
        roles.within(accounts@.len() as int),
    ensures
        outcome_is(r, create_multisig_spec(*program_id, accounts@, *roles, signers@, m)),
{
    let source = &accounts[roles.source];
    let group = &accounts[roles.group];
    let ledger = &accounts[roles.ledger];
    if !source.is_signer {
        return Err(ProgramError::MissingRequiredSignature);
    }
    if m < 1 || m as usize > signers.len() || signers.len() > 11 || !all_distinct(&signers) {
        return Err(ProgramError::from(TokenError::InvalidInstruction));
    }
    if group.data.len() != 0 {
        return Err(ProgramError::from(TokenError::StreamAlreadyCreated));
    }
    let safe = match derive_cell(Tag::MultisigSafe, &group.key, None, program_id) {
        Some((address, _)) => address,
        None => {
            return Err(ProgramError::from(TokenError::PublicKeyMismatch));
        },
    };
    let seeds = check_cell(program_id, ledger, Tag::WithdrawMultisigSol, &safe, None)?;
    let value = Multisig { signers, m, multisig_safe: safe };
    let data = value.pack()?;
    let mut out = no_actions();
    emit(&mut out, create_pda_account_signed(source, 8, 1, 8, program_id, ledger, seeds));
    emit(&mut out, create_pda_account(source, 443, 1, 419, program_id, group));
    emit(&mut out, Action::Write { cell: group.key, data });
    assert(views(out@) =~= create_multisig_spec(*program_id, accounts@, *roles, signers@, m)->Ok_0);
    Ok(out)
}

/// The record after the approval of `key` under the threshold `m`: the
/// approval is appended, and a record that waited for its approvals runs
/// once it has `m` of them.
pub open spec fn approved(rec: StreamRecordView, key: Pubkey, m: u8) -> StreamRecordView {
    let signed_by = rec.signed_by.push(approval_of(key));
    StreamRecordView {
        signed_by,
        schedule: if signed_by.len() >= m && rec.schedule.pending() {
            Schedule { paused: 0, ..rec.schedule }
        } else {
            rec.schedule
        },
        ..rec
    }
}

/// What the approval of a stream does. A member of the group signs, not
/// later than the stream's start and not for the second time: a second
/// approval of the same member fails with `PublicKeyMismatch` and changes
/// nothing.
pub open spec fn sign_spec(
    program: Pubkey,
    a: Seq<AccountInfo>,
    roles: Roles,
    layout: Layout,
    ctx: Context,
) -> Result<Seq<ActionView>, ProgramError> {
    let source = a[roles.source as int];
    let record = a[roles.record as int];
    if !source.is_signer {
        Err(ProgramError::MissingRequiredSignature)
    } else {
        match loaded_record(program, record, layout) {
            Err(e) => Err(e),
            Ok(rec) => match loaded_group(program, a[roles.group as int]) {
                Err(e) => Err(e),
                Ok(group) => {
                    let next = approved(rec, source.key, group.m);
                    if !is_member(group.signers, source.key) {
                        Err(ProgramError::MissingRequiredSignature)
                    } else if group.multisig_safe != rec.multisig_safe {
                        Err(custom(TokenError::OwnerMismatch))
                    } else if ctx.now > rec.schedule.start_time {
                        Err(custom(TokenError::TimeEnd))
                    } else if is_member(rec.signed_by, source.key) {
                        Err(custom(TokenError::PublicKeyMismatch))
                    } else if next.signed_by.len() > u32::MAX || record_bytes(layout, next).len()
                        > record.data@.len() {
                        Err(ProgramError::BorshIoError)
                    } else {
                        Ok(seq![ActionView::Write { cell: record.key, data: record_bytes(layout, next) }])
                    }
                },
            },
        }
    }
}

/// Approves a stream that waits.
pub fn sign(
    program_id: &Pubkey,
    accounts: &[AccountInfo],
    roles: &Roles,
    layout: Layout,
    ctx: &Context,
) -> (r: Result<Vec<Action>, ProgramError>)
    requires
        roles.within(accounts@.len() as int),
    ensures
        outcome_is(r, sign_spec(*program_id, accounts@, *roles, layout, *ctx)),
{
    let source = &accounts[roles.source];
    let record = &accounts[roles.record];
    if !source.is_signer {
        return Err(ProgramError::MissingRequiredSignature);
    }
    let rec = load_record(program_id, record, layout)?;
    let group = load_group(program_id, &accounts[roles.group])?;
    if !contains_key(&group.signers, &source.key) {
        return Err(ProgramError::MissingRequiredSignature);
    }
    if group.multisig_safe != rec.multisig_safe {
        return Err(ProgramError::from(TokenError::OwnerMismatch));
    }
    if ctx.now > rec.schedule.start_time {
        return Err(ProgramError::from(TokenError::TimeEnd));
    }
    if contains_key(&rec.signed_by, &source.key) {
        return Err(ProgramError::from(TokenError::PublicKeyMismatch));
    }
    let ghost before = rec@;
    let mut rec = rec;
    rec.signed_by.push(WhiteList { address: source.key, counter: 0 });
    if rec.signed_by.len() >= group.m as usize && rec.schedule.paused == 1 && rec.schedule.paused_at
        == 0 {
        rec.schedule.paused = 0;
    }
    assert(rec@.signed_by =~= approved(before, source.key, group.m).signed_by);
    assert(rec@ == approved(before, source.key, group.m));
    let data = match rec.pack(layout) {
        Ok(d) => d,
        Err(e) => {
            return Err(e);
        },
    };
    if data.len() > record.data.len() {
        return Err(ProgramError::BorshIoError);
    }
    let mut out = no_actions();
    emit(&mut out, Action::Write { cell: record.key, data });
    assert(views(out@) =~= sign_spec(*program_id, accounts@, *roles, layout, *ctx)->Ok_0);
    Ok(out)
}

/// What the rejection of a stream does. A member of the group signs, not
/// later than the stream's start. The record is closed without any release,
/// its storage deposit goes to the account in the recipient's role, and the
/// ledger of the safe gives up what the stream owed.
pub open spec fn reject_spec(
    program: Pubkey,
    a: Seq<AccountInfo>,
    roles: Roles,
    layout: Layout,
    ctx: Context,
) -> Result<Seq<ActionView>, ProgramError> {
    let source = a[roles.source as int];
    let record = a[roles.record as int];
    let ledger = a[roles.ledger as int];
    let to = a[roles.dest as int].key;
    if !source.is_signer {
        Err(ProgramError::MissingRequiredSignature)
    } else {
        match loaded_record(program, record, layout) {
            Err(e) => Err(e),
            Ok(rec) => match loaded_group(program, a[roles.group as int]) {
                Err(e) => Err(e),
                Ok(group) => {
                    let ledger_check = checked_cell(
                        program,
                        ledger,
                        Tag::WithdrawMultisigSol,
                        rec.multisig_safe,
                        ledger_mint(layout.token, rec.token_mint),
                    );
                    let held = loaded_ledger(program, ledger);
                    if ctx.now > rec.schedule.start_time {
                        Err(custom(TokenError::TimeEnd))
                    } else if group.multisig_safe != rec.multisig_safe {
                        Err(custom(TokenError::PublicKeyMismatch))
                    } else if !is_member(group.signers, source.key) {
                        Err(ProgramError::MissingRequiredSignature)
                    } else if ledger_check is Err {
                        Err(ledger_check->Err_0)
                    } else if held is Err {
                        Err(held->Err_0)
                    } else if rec.schedule.amount < rec.schedule.withdrawn || held->Ok_0
                        < rec.schedule.residual() {
                        Err(custom(TokenError::Overflow))
                    } else {
                        Ok(
                            record_update(record.key, to, true, record_bytes(layout, cancelled(rec, 0)))
                                + ledger_update(
                                ledger.key,
                                to,
                                (held->Ok_0 - rec.schedule.residual()) as u64,
                            ),
                        )
                    }
                },
            },
        }
    }
}

/// Rejects a stream that waits.
pub fn reject(
    program_id: &Pubkey,
    accounts: &[AccountInfo],
    roles: &Roles,
    layout: Layout,
    ctx: &Context,
) -> (r: Result<Vec<Action>, ProgramError>)
    requires
        roles.within(accounts@.len() as int),
    ensures
        outcome_is(r, reject_spec(*program_id, accounts@, *roles, layout, *ctx)),
{
    let source = &accounts[roles.source];
    let record = &accounts[roles.record];
    let ledger = &accounts[roles.ledger];
    let to = accounts[roles.dest].key;
    if !source.is_signer {
        return Err(ProgramError::MissingRequiredSignature);
    }
    let rec = load_record(program_id, record, layout)?;
    let group = load_group(program_id, &accounts[roles.group])?;
    if ctx.now > rec.schedule.start_time {
        return Err(ProgramError::from(TokenError::TimeEnd));
    }
    if group.multisig_safe != rec.multisig_safe {
        return Err(ProgramError::from(TokenError::PublicKeyMismatch));
    }
    if !contains_key(&group.signers, &source.key) {
        return Err(ProgramError::MissingRequiredSignature);
    }
    let mint = if layout.token { Some(rec.token_mint) } else { None };
    let _seeds = check_cell(program_id, ledger, Tag::WithdrawMultisigSol, &rec.multisig_safe, mint)?;
    let held = load_ledger(program_id, ledger)?;
    if rec.schedule.amount < rec.schedule.withdrawn {
        return Err(ProgramError::from(TokenError::Overflow));
    }
    let residual = rec.schedule.amount - rec.schedule.withdrawn;
    if held < residual {
        return Err(ProgramError::from(TokenError::Overflow));
    }
    let ghost before = rec@;
    let mut rec = rec;
    rec.schedule.amount = rec.schedule.withdrawn;
    assert(rec@ == cancelled(before, 0));
    let data = rec.pack(layout)?;
    let mut out = no_actions();
    emit_record_update(&mut out, &record.key, &to, true, data);
    emit_ledger_update(&mut out, &ledger.key, &to, held - residual);
    Ok(out)
}

/// The bytes of a new proposal cell.
pub open spec fn proposal_space(token: bool) -> u64 {
    if token {
        515
    } else {
        483
    }
}

/// What a transfer proposal does when it is made. A member of the group
/// signs; the group's safe is the one derived from the group's cell; the
/// approvals that the request brings are of distinct members; the proposal
/// cell is empty. The cell is created and takes the proposal.
pub open spec fn propose_spec(
    program: Pubkey,
    a: Seq<AccountInfo>,
    roles: Roles,
    token: bool,
    amount: u64,
    signed_by: Seq<WhiteList>,
) -> Result<Seq<ActionView>, ProgramError> {
    let source = a[roles.source as int];
    let cell = a[roles.record as int];
    let group_cell = a[roles.group as int];
    if !source.is_signer {
        Err(ProgramError::MissingRequiredSignature)
    } else {
        match loaded_group(program, group_cell) {
            Err(e) => Err(e),
            Ok(group) => {
                let safe = cell_address(Tag::MultisigSafe, group_cell.key, None, program);
                if safe is None || safe->Some_0.0 != group.multisig_safe {
                    Err(custom(TokenError::PublicKeyMismatch))
                } else if !is_member(group.signers, source.key) {
                    Err(ProgramError::MissingRequiredSignature)
                } else if !(signed_by.len() <= u32::MAX && approvals_valid(signed_by, group.signers)) {
                    Err(custom(TokenError::InvalidInstruction))
                } else if cell.data@.len() != 0 {
                    Err(custom(TokenError::StreamAlreadyCreated))
                } else {
                    Ok(
                        seq![
                            create_cell(
                                source.key,
                                cell.key,
                                proposal_space(token),
                                proposal_space(token),
                                1,
                                program,
                                None,
                            ),
                            ActionView::Write {
                                cell: cell.key,
                                data: proposal_bytes(
                                    token,
                                    TransferProposalView {
                                        sender: source.key,
                                        recipient: a[roles.dest as int].key,
                                        signed_by,
                                        multisig_safe: group.multisig_safe,
                                        amount,
                                        token_mint: if token {
                                            a[roles.mint as int].key
                                        } else {
                                            zero_key()
                                        },
                                    },
                                ),
                            },
                        ],
                    )
                }
            },
        }
    }
}

/// Makes a transfer proposal.
pub fn propose(
    program_id: &Pubkey,
    accounts: &[AccountInfo],
    roles: &Roles,
    token: bool,
    amount: u64,
    signed_by: Vec<WhiteList>,
) -> (r: Result<Vec<Action>, ProgramError>)
    requires
        roles.within(accounts@.len() as int),
    ensures
        outcome_is(r, propose_spec(*program_id, accounts@, *roles, token, amount, signed_by@)),
{
    let source = &accounts[roles.source];
    let cell = &accounts[roles.record];
    let group_cell = &accounts[roles.group];
    if !source.is_signer {
        return Err(ProgramError::MissingRequiredSignature);
    }
    let group = load_group(program_id, group_cell)?;
    match derive_cell(Tag::MultisigSafe, &group_cell.key, None, program_id) {
        Some((address, _)) => {
            if address != group.multisig_safe {
                return Err(ProgramError::from(TokenError::PublicKeyMismatch));
            }
        },
        None => {
            return Err(ProgramError::from(TokenError::PublicKeyMismatch));
        },
    }
    if !contains_key(&group.signers, &source.key) {
        return Err(ProgramError::MissingRequiredSignature);
    }
    if signed_by.len() > 0xffff_ffff || !check_approvals(&signed_by, &group.signers) {
        return Err(ProgramError::from(TokenError::InvalidInstruction));
    }
    if cell.data.len() != 0 {
        return Err(ProgramError::from(TokenError::StreamAlreadyCreated));
    }
    let proposal = TransferProposal {
        sender: source.key,
        recipient: accounts[roles.dest].key,
        signed_by,
        multisig_safe: group.multisig_safe,
        amount,
        token_mint: if token { accounts[roles.mint].key } else { zero_pubkey() },
    };
    let data = proposal.pack(token)?;
    let space: u64 = if token { 515 } else { 483 };
    let mut out = no_actions();
    emit(&mut out, create_pda_account(source, space, 1, space, program_id, cell));
    emit(&mut out, Action::Write { cell: cell.key, data });
    assert(views(out@) =~= propose_spec(
        *program_id,
        accounts@,
        *roles,
        token,
        amount,
        signed_by@,
    )->Ok_0);
    Ok(out)
}

/// The transfer that a proposal executes: out of the safe to the recipient,
/// whose token account is created where it is missing.
pub open spec fn proposal_transfer(
    a: Seq<AccountInfo>,
    roles: Roles,
    token: bool,
    amount: u64,
    seeds: Seeds,
) -> Seq<ActionView> {
    let safe = a[roles.vault as int].key;
    let dest = a[roles.dest as int].key;
    if token {
        (if a[roles.dest_token as int].data@.len() == 0 {
            seq![
                ActionView::CreateAssociatedTokenAccount {
                    payer: a[roles.source as int].key,
                    wallet: dest,
                    mint: a[roles.mint as int].key,
                },
            ]
        } else {
            Seq::empty()
        }) + seq![
            ActionView::TokenTransfer {
                source: a[roles.vault_token as int].key,
                destination: a[roles.dest_token as int].key,
                authority: safe,
                amount,
                seeds: Some(seeds),
            },
        ]
    } else {
        seq![ActionView::Transfer { from: safe, to: dest, lamports: amount, seeds: Some(seeds) }]
    }
}

/// The proposal after the approval of `key`.
pub open spec fn proposal_approved(p: TransferProposalView, key: Pubkey) -> TransferProposalView {
    TransferProposalView { signed_by: p.signed_by.push(approval_of(key)), ..p }
}

/// What the approval of a transfer proposal does. A member of the group of
/// the proposal's safe signs, each member once: a second approval of the
/// same member fails with `PublicKeyMismatch` and changes nothing. Below the
/// threshold the approval is recorded. At the threshold the transfer goes
/// out of the safe to the proposal's recipient and the proposal is closed.
pub open spec fn sign_transfer_spec(
    program: Pubkey,
    a: Seq<AccountInfo>,
    roles: Roles,
    token: bool,
) -> Result<Seq<ActionView>, ProgramError> {
    let source = a[roles.source as int];
    let cell = a[roles.record as int];
    let group_cell = a[roles.group as int];
    match loaded_proposal(program, cell, token) {
        Err(e) => Err(e),
        Ok(p) => match loaded_group(program, group_cell) {
            Err(e) => Err(e),
            Ok(group) => {
                let next = proposal_approved(p, source.key);
                let safe_check = checked_cell(
                    program,
                    a[roles.vault as int],
                    Tag::MultisigSafe,
                    group_cell.key,
                    None,
                );
                if !source.is_signer || !is_member(group.signers, source.key) || p.multisig_safe
                    != group.multisig_safe {
                    Err(ProgramError::MissingRequiredSignature)
                } else if is_member(p.signed_by, source.key) {
                    Err(custom(TokenError::PublicKeyMismatch))
                } else if next.signed_by.len() > u32::MAX || proposal_bytes(token, next).len()
                    > cell.data@.len() {
                    Err(ProgramError::BorshIoError)
                } else if next.signed_by.len() < group.m {
                    Ok(seq![ActionView::Write { cell: cell.key, data: proposal_bytes(token, next) }])
                } else if a[roles.dest as int].key != p.recipient {
                    Err(custom(TokenError::EscrowMismatch))
                } else if token && a[roles.token_program as int].key != token_program_key() {
                    Err(ProgramError::IncorrectProgramId)
                } else if token && p.token_mint != a[roles.mint as int].key {
                    Err(custom(TokenError::PublicKeyMismatch))
                } else if safe_check is Err {
                    Err(safe_check->Err_0)
                } else if token && !(is_token_account_of(
                    a[roles.vault_token as int],
                    a[roles.vault as int].key,
                    p.token_mint,
                ) && is_token_account_of(a[roles.dest_token as int], p.recipient, p.token_mint)) {
                    Err(custom(TokenError::PublicKeyMismatch))
                } else {
                    Ok(
                        proposal_transfer(a, roles, token, p.amount, safe_check->Ok_0)
                            + record_update(cell.key, source.key, true, proposal_bytes(token, next)),
                    )
                }
            },
        },
    }
}

/// Approves a transfer proposal.
pub fn sign_transfer(program_id: &Pubkey, accounts: &[AccountInfo], roles: &Roles, token: bool) -> (r:
    Result<Vec<Action>, ProgramError>)
    requires
        roles.within(accounts@.len() as int),
    ensures
        outcome_is(r, sign_transfer_spec(*program_id, accounts@, *roles, token)),
{
    let source = &accounts[roles.source];
    let cell = &accounts[roles.record];
    let group_cell = &accounts[roles.group];
    let p = load_proposal(program_id, cell, token)?;
    let group = load_group(program_id, group_cell)?;
    if !source.is_signer || !contains_key(&group.signers, &source.key) || p.multisig_safe
        != group.multisig_safe {
        return Err(ProgramError::MissingRequiredSignature);
    }
    if contains_key(&p.signed_by, &source.key) {
        return Err(ProgramError::from(TokenError::PublicKeyMismatch));
    }
    let ghost before = p@;
    let mut p = p;
    p.signed_by.push(WhiteList { address: source.key, counter: 0 });
    assert(p@.signed_by =~= proposal_approved(before, source.key).signed_by);
    assert(p@ == proposal_approved(before, source.key));
    let data = match p.pack(token) {
        Ok(d) => d,
        Err(e) => {
            return Err(e);
        },
    };
    if data.len() > cell.data.len() {
        return Err(ProgramError::BorshIoError);
    }
    let mut out = no_actions();
    if p.signed_by.len() < group.m as usize {
        emit(&mut out, Action::Write { cell: cell.key, data });
        assert(views(out@) =~= sign_transfer_spec(*program_id, accounts@, *roles, token)->Ok_0);
        return Ok(out);
    }
    if accounts[roles.dest].key != p.recipient {
        return Err(ProgramError::from(TokenError::EscrowMismatch));
    }
    if token && accounts[roles.token_program].key != crate::utils::token_program_id() {
        return Err(ProgramError::IncorrectProgramId);
    }
    if token && p.token_mint != accounts[roles.mint].key {
        return Err(ProgramError::from(TokenError::PublicKeyMismatch));
    }
    let seeds = check_cell(program_id, &accounts[roles.vault], Tag::MultisigSafe, &group_cell.key, None)?;
    let safe = accounts[roles.vault].key;
    if token {
        if !check_token_account(&accounts[roles.vault_token], &safe, &p.token_mint) {
            return Err(ProgramError::from(TokenError::PublicKeyMismatch));
        }
        if !check_token_account(&accounts[roles.dest_token], &p.recipient, &p.token_mint) {
            return Err(ProgramError::from(TokenError::PublicKeyMismatch));
        }
        if accounts[roles.dest_token].data.len() == 0 {
            emit(
                &mut out,
                Action::CreateAssociatedTokenAccount {
                    payer: source.key,
                    wallet: accounts[roles.dest].key,
                    mint: accounts[roles.mint].key,
                },
            );
        }
        emit(
            &mut out,
            Action::TokenTransfer {
                source: accounts[roles.vault_token].key,
                destination: accounts[roles.dest_token].key,
                authority: safe,
                amount: p.amount,
                seeds: Some(seeds),
            },
        );
    } else {
        emit(
            &mut out,
            create_transfer(&accounts[roles.vault], &accounts[roles.dest], p.amount, seeds),
        );
    }
    assert(views(out@) =~= proposal_transfer(accounts@, *roles, token, p.amount, seeds));
    emit_record_update(&mut out, &cell.key, &source.key, true, data);
    Ok(out)
}

/// What the rejection of a transfer proposal does. A member of the group of
/// the proposal's safe signs; the proposal is closed and nothing is
/// transferred.
pub open spec fn reject_transfer_spec(
    program: Pubkey,
    a: Seq<AccountInfo>,
    roles: Roles,
    token: bool,
) -> Result<Seq<ActionView>, ProgramError> {
    let source = a[roles.source as int];
    let cell = a[roles.record as int];
    match loaded_proposal(program, cell, token) {
        Err(e) => Err(e),
        Ok(p) => match loaded_group(program, a[roles.group as int]) {
            Err(e) => Err(e),
            Ok(group) => if !source.is_signer || !is_member(group.signers, source.key)
                || p.multisig_safe != group.multisig_safe {
                Err(ProgramError::MissingRequiredSignature)
            } else {
                Ok(seq![ActionView::Close { cell: cell.key, to: source.key }])
            },
        },
    }
}

/// Rejects a transfer proposal.
pub fn reject_transfer(program_id: &Pubkey, accounts: &[AccountInfo], roles: &Roles, token: bool) -> (r:
    Result<Vec<Action>, ProgramError>)
    requires
        roles.within(accounts@.len() as int),
    ensures
        outcome_is(r, reject_transfer_spec(*program_id, accounts@, *roles, token)),
{
    let source = &accounts[roles.source];
    let cell = &accounts[roles.record];
    let p = load_proposal(program_id, cell, token)?;
    let group = load_group(program_id, &accounts[roles.group])?;
    if !source.is_signer || !contains_key(&group.signers, &source.key) || p.multisig_safe
        != group.multisig_safe {
        return Err(ProgramError::MissingRequiredSignature);
    }
    let mut out = no_actions();
    emit(&mut out, Action::Close { cell: cell.key, to: source.key });
    assert(views(out@) =~= reject_transfer_spec(*program_id, accounts@, *roles, token)->Ok_0);
    Ok(out)
}

} // verus!
