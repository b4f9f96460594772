//! The operations on a stream, one for every record variant: creation,
//! withdraw, cancel, pause, resume and fund.
use vstd::prelude::*;
use crate::account::{emit, no_actions, views, AccountInfo, Action, ActionView, Seeds, Tag};
use crate::checks::{
    approvals_valid, check_approvals, check_cell, check_token_account, checked_cell,
    create_cell, emit_ledger_update, emit_native_payout, emit_record_update, emit_token_payout,
    is_token_account_of, ledger_mint, ledger_tag, ledger_tag_of, ledger_update, load_group,
    load_ledger, load_record, loaded_group, loaded_ledger, loaded_record, native_payout,
    record_update, token_payout, Context, TokenPayout,
};
use crate::codec::u64_bytes;
use crate::error::{custom, ProgramError, TokenError};
use crate::group::{contains_key, is_member, write_ledger};
use crate::keys::{zero_key, zero_pubkey, Pubkey};
use crate::record::{record_bytes, Layout, StreamRecord, StreamRecordView, WhiteList};
use crate::schedule::Schedule;
use crate::utils::{create_pda_account, create_pda_account_signed, token_program_key};

verus! {

/// Where the accounts of a stream operation stand in the list of an
/// instruction. A role that an operation does not use is left at zero.
#[derive(Clone, Copy, Debug)]
pub struct Roles {
    /// The sender.
    pub source: usize,
    /// The recipient.
    pub dest: usize,
    /// The vault that backs the stream.
    pub vault: usize,
    /// The stream record.
    pub record: usize,
    /// The reservation ledger.
    pub ledger: usize,
    /// The fee sink.
    pub fee: usize,
    /// The multisig group.
    pub group: usize,
    /// The token program.
    pub token_program: usize,
    /// The token mint.
    pub mint: usize,
    /// The token accounts of the vault, of the recipient and of the fee sink.
    pub vault_token: usize,
    pub dest_token: usize,
    pub fee_token: usize,
    /// The token account of the sender.
    pub source_token: usize,
    /// The system program.
    pub system_program: usize,
}

impl Roles {
    /// Every role stands within a list of `n` accounts.
    pub open spec fn within(self, n: int) -> bool {
        &&& self.source < n
        &&& self.dest < n
        &&& self.vault < n
        &&& self.record < n
        &&& self.ledger < n
        &&& self.fee < n
        &&& self.group < n
        &&& self.token_program < n
        &&& self.mint < n
        &&& self.vault_token < n
        &&& self.dest_token < n
        &&& self.fee_token < n
        &&& self.source_token < n
        &&& self.system_program < n
    }
}

/// What the accounts of a release resolve to.
pub struct Resolved {
    /// The stream record.
    pub record: StreamRecordView,
    /// The threshold of the group; zero for a single sender.
    pub threshold: u8,
    /// The first account is a member of the group, or the single sender.
    pub member: bool,
    /// The seeds under which the program signs for the vault.
    pub vault_seeds: Seeds,
    /// The amount in the reservation ledger.
    pub ledger: u64,
}

/// Holds the accounts of a release to the record and to their derivations:
/// the fee sink, the token program, the record and the group, the parties,
/// the mint, the vault, the ledger and the token accounts, in this order.
pub open spec fn resolved(
    program: Pubkey,
    a: Seq<AccountInfo>,
    roles: Roles,
    layout: Layout,
    ctx: Context,
) -> Result<Resolved, ProgramError> {
    let source = a[roles.source as int];
    let dest = a[roles.dest as int];
    let vault = a[roles.vault as int];
    let mint = a[roles.mint as int];
    let fee = a[roles.fee as int];
    if fee.key != ctx.fee_receiver {
        Err(custom(TokenError::OwnerMismatch))
    } else if layout.token && a[roles.token_program as int].key != token_program_key() {
        Err(ProgramError::IncorrectProgramId)
    } else {
        match loaded_record(program, a[roles.record as int], layout) {
            Err(e) => Err(e),
            Ok(rec) => {
                let group = loaded_group(program, a[roles.group as int]);
                if layout.multisig && group is Err {
                    Err(group->Err_0)
                } else if rec.recipient != dest.key || rec.sender != source.key {
                    Err(custom(TokenError::EscrowMismatch))
                } else if layout.multisig && rec.multisig_safe != vault.key {
                    Err(custom(TokenError::EscrowMismatch))
                } else if layout.token && rec.token_mint != mint.key {
                    Err(custom(TokenError::PublicKeyMismatch))
                } else {
                    let vault_check = if layout.multisig {
                        checked_cell(program, vault, Tag::MultisigSafe, a[roles.group as int].key, None)
                    } else {
                        checked_cell(program, vault, Tag::Vault, source.key, None)
                    };
                    let ledger_check = checked_cell(
                        program,
                        a[roles.ledger as int],
                        ledger_tag(layout.token, layout.multisig),
                        if layout.multisig {
                            vault.key
                        } else {
                            source.key
                        },
                        ledger_mint(layout.token, mint.key),
                    );
                    if vault_check is Err {
                        Err(vault_check->Err_0)
                    } else if ledger_check is Err {
                        Err(ledger_check->Err_0)
                    } else if layout.token && !(is_token_account_of(
                        a[roles.vault_token as int],
                        vault.key,
                        mint.key,
                    ) && is_token_account_of(a[roles.dest_token as int], dest.key, mint.key)
                        && is_token_account_of(a[roles.fee_token as int], fee.key, mint.key)) {
                        Err(custom(TokenError::PublicKeyMismatch))
                    } else {
                        match loaded_ledger(program, a[roles.ledger as int]) {
                            Err(e) => Err(e),
                            Ok(ledger) => Ok(
                                Resolved {
                                    record: rec,
                                    threshold: if layout.multisig {
                                        group->Ok_0.m
                                    } else {
                                        0
                                    },
                                    member: !layout.multisig || is_member(
                                        group->Ok_0.signers,
                                        source.key,
                                    ),
                                    vault_seeds: vault_check->Ok_0,
                                    ledger,
                                },
                            ),
                        }
                    }
                }
            },
        }
    }
}

/// Resolves the accounts of a release.
pub fn resolve(
    program_id: &Pubkey,
    accounts: &[AccountInfo],
    roles: &Roles,
    layout: Layout,
    ctx: &Context,
) -> (r: Result<(StreamRecord, u8, bool, Seeds, u64), ProgramError>)
    requires
        roles.within(accounts@.len() as int),
    ensures
        match r {
            Ok((rec, threshold, member, vault_seeds, ledger)) => resolved(
                *program_id,
                accounts@,
                *roles,
                layout,
                *ctx,
            ) == Ok::<Resolved, ProgramError>(
                Resolved { record: rec@, threshold, member, vault_seeds, ledger },
            ) && rec.signed_by@.len() <= u32::MAX,
            Err(e) => resolved(*program_id, accounts@, *roles, layout, *ctx) == Err::<
                Resolved,
                ProgramError,
            >(e),
        },
{
    let source = &accounts[roles.source];
    let dest = &accounts[roles.dest];
    let vault = &accounts[roles.vault];
    let mint = &accounts[roles.mint];
    let fee = &accounts[roles.fee];
    if fee.key != ctx.fee_receiver {
        return Err(ProgramError::from(TokenError::OwnerMismatch));
    }
    if layout.token && accounts[roles.token_program].key != crate::utils::token_program_id() {
        return Err(ProgramError::IncorrectProgramId);
    }
    let rec = load_record(program_id, &accounts[roles.record], layout)?;
    let mut threshold: u8 = 0;
    let mut member: bool = true;
    if layout.multisig {
        let group = load_group(program_id, &accounts[roles.group])?;
        threshold = group.m;
        member = contains_key(&group.signers, &source.key);
    }
    if rec.recipient != dest.key || rec.sender != source.key {
        return Err(ProgramError::from(TokenError::EscrowMismatch));
    }
    if layout.multisig && rec.multisig_safe != vault.key {
        return Err(ProgramError::from(TokenError::EscrowMismatch));
    }
    if layout.token && rec.token_mint != mint.key {
        return Err(ProgramError::from(TokenError::PublicKeyMismatch));
    }
    let vault_seeds = if layout.multisig {
        check_cell(program_id, vault, Tag::MultisigSafe, &accounts[roles.group].key, None)?
    } else {
        check_cell(program_id, vault, Tag::Vault, &source.key, None)?
    };
    let owner = if layout.multisig { vault.key } else { source.key };
    let ledger_mint = if layout.token { Some(mint.key) } else { None };
    let _ledger_seeds = check_cell(
        program_id,
        &accounts[roles.ledger],
        ledger_tag_of(layout.token, layout.multisig),
        &owner,
        ledger_mint,
    )?;
    if layout.token {
        if !check_token_account(&accounts[roles.vault_token], &vault.key, &mint.key) {
            return Err(ProgramError::from(TokenError::PublicKeyMismatch));
        }
        if !check_token_account(&accounts[roles.dest_token], &dest.key, &mint.key) {
            return Err(ProgramError::from(TokenError::PublicKeyMismatch));
        }
        if !check_token_account(&accounts[roles.fee_token], &fee.key, &mint.key) {
            return Err(ProgramError::from(TokenError::PublicKeyMismatch));
        }
    }
    let ledger = load_ledger(program_id, &accounts[roles.ledger])?;
    Ok((rec, threshold, member, vault_seeds, ledger))
}

/// The accounts of a token release as the roles name them.
pub open spec fn payout_accounts(a: Seq<AccountInfo>, roles: Roles, payer: Pubkey) -> TokenPayout {
    TokenPayout {
        vault: a[roles.vault as int].key,
        vault_token: a[roles.vault_token as int].key,
        dest: a[roles.dest as int].key,
        dest_token: a[roles.dest_token as int].key,
        fee: a[roles.fee as int].key,
        fee_token: a[roles.fee_token as int].key,
        mint: a[roles.mint as int].key,
        payer,
        dest_missing: a[roles.dest_token as int].data@.len() == 0,
        fee_missing: a[roles.fee_token as int].data@.len() == 0,
    }
}

/// The transfers that release `amount` out of the vault: of lamports for a
/// native stream, of tokens for a token stream.
pub open spec fn payout(
    a: Seq<AccountInfo>,
    roles: Roles,
    token: bool,
    payer: Pubkey,
    amount: u64,
    seeds: Seeds,
) -> Seq<ActionView> {
    if token {
        token_payout(payout_accounts(a, roles, payer), amount, seeds)
    } else {
        native_payout(
            a[roles.vault as int].key,
            a[roles.fee as int].key,
            a[roles.dest as int].key,
            amount,
            seeds,
        )
    }
}

fn emit_payout(
    out: &mut Vec<Action>,
    accounts: &[AccountInfo],
    roles: &Roles,
    token: bool,
    payer: &Pubkey,
    amount: u64,
    seeds: Seeds,
)
    requires
        roles.within(accounts@.len() as int),
    ensures
        views(final(out)@) == views(old(out)@) + payout(
            accounts@,
            *roles,
            token,
            *payer,
            amount,
            seeds,
        ),
{
    if token {
        let p = TokenPayout {
            vault: accounts[roles.vault].key,
            vault_token: accounts[roles.vault_token].key,
            dest: accounts[roles.dest].key,
            dest_token: accounts[roles.dest_token].key,
            fee: accounts[roles.fee].key,
            fee_token: accounts[roles.fee_token].key,
            mint: accounts[roles.mint].key,
            payer: *payer,
            dest_missing: accounts[roles.dest_token].data.len() == 0,
            fee_missing: accounts[roles.fee_token].data.len() == 0,
        };
        emit_token_payout(out, &p, amount, seeds);
    } else {
        emit_native_payout(
            out,
            &accounts[roles.vault],
            &accounts[roles.fee],
            &accounts[roles.dest],
            amount,
            seeds,
        );
    }
}

/// The record with another schedule.
pub open spec fn with_schedule(rec: StreamRecordView, schedule: Schedule) -> StreamRecordView {
    StreamRecordView { schedule, ..rec }
}

/// What a withdrawal of `amount` does. The recipient signs. The accounts are
/// held to the record and to their derivations; a multisig stream must have
/// its approvals; then the schedule releases the amount and the ledger gives
/// it up. A record that owes nothing more, and a ledger that returns to
/// zero, are closed.
pub open spec fn withdraw_spec(
    program: Pubkey,
    a: Seq<AccountInfo>,
    roles: Roles,
    layout: Layout,
    amount: u64,
    ctx: Context,
) -> Result<Seq<ActionView>, ProgramError> {
    let source = a[roles.source as int];
    if !a[roles.dest as int].is_signer {
        Err(ProgramError::MissingRequiredSignature)
    } else {
        match resolved(program, a, roles, layout, ctx) {
            Err(e) => Err(e),
            Ok(res) => {
                let schedule = res.record.schedule;
                let failure = if layout.current {
                    schedule.withdraw_error(amount, ctx.now)
                } else {
                    schedule.legacy_withdraw_error(amount, ctx.now)
                };
                let next = if layout.current {
                    schedule.after_withdraw(amount)
                } else {
                    schedule.after_legacy_withdraw(amount)
                };
                if layout.multisig && res.record.signed_by.len() < res.threshold {
                    Err(ProgramError::MissingRequiredSignature)
                } else if failure is Some {
                    Err(failure->Some_0)
                } else if res.ledger < amount {
                    Err(custom(TokenError::Overflow))
                } else {
                    Ok(
                        payout(a, roles, layout.token, a[roles.dest as int].key, amount, res.vault_seeds)
                            + record_update(
                            a[roles.record as int].key,
                            source.key,
                            next.amount == next.withdrawn,
                            record_bytes(layout, with_schedule(res.record, next)),
                        ) + ledger_update(
                            a[roles.ledger as int].key,
                            source.key,
                            (res.ledger - amount) as u64,
                        ),
                    )
                }
            },
        }
    }
}

/// A handler's result is the one that its specification gives.
pub open spec fn outcome_is(r: Result<Vec<Action>, ProgramError>, spec: Result<Seq<ActionView>, ProgramError>) -> bool {
    match r {
        Ok(actions) => spec == Ok::<Seq<ActionView>, ProgramError>(views(actions@)),
        Err(e) => spec == Err::<Seq<ActionView>, ProgramError>(e),
    }
}

/// Withdraws `amount` from a stream.
pub fn withdraw(
    program_id: &Pubkey,
    accounts: &[AccountInfo],
    roles: &Roles,
    layout: Layout,
    amount: u64,
    ctx: &Context,
) -> (r: Result<Vec<Action>, ProgramError>)
    requires
        roles.within(accounts@.len() as int),
    ensures
        outcome_is(r, withdraw_spec(*program_id, accounts@, *roles, layout, amount, *ctx)),
{
    let source = &accounts[roles.source];
    let dest = &accounts[roles.dest];
    if !dest.is_signer {
        return Err(ProgramError::MissingRequiredSignature);
    }
    let (rec, threshold, _member, vault_seeds, ledger) = resolve(
        program_id,
        accounts,
        roles,
        layout,
        ctx,
    )?;
    if layout.multisig && rec.signed_by.len() < threshold as usize {
        return Err(ProgramError::MissingRequiredSignature);
    }
    let next = if layout.current {
        rec.schedule.withdraw(amount, ctx.now)?
    } else {
        rec.schedule.withdraw_legacy(amount, ctx.now)?
    };
    if ledger < amount {
        return Err(ProgramError::from(TokenError::Overflow));
    }
    let ghost before = rec@;
    let mut rec = rec;
    rec.schedule = next;
    assert(rec@ == with_schedule(before, next));
    let data = rec.pack(layout)?;
    let mut out = no_actions();
    emit_payout(&mut out, accounts, roles, layout.token, &dest.key, amount, vault_seeds);
    emit_record_update(
        &mut out,
        &accounts[roles.record].key,
        &source.key,
        next.amount == next.withdrawn,
        data,
    );
    emit_ledger_update(&mut out, &accounts[roles.ledger].key, &source.key, ledger - amount);
    Ok(out)
}

/// The record after a cancel: nothing more is owed on it.
pub open spec fn cancelled(rec: StreamRecordView, paid: u64) -> StreamRecordView {
    StreamRecordView {
        schedule: Schedule {
            amount: (rec.schedule.withdrawn + paid) as u64,
            withdrawn: (rec.schedule.withdrawn + paid) as u64,
            ..rec.schedule
        },
        ..rec
    }
}

/// What a cancel does. The sender signs; of a multisig stream the sender is
/// a member of the group and the stream was created with the right to
/// cancel. What is released and not yet withdrawn goes to the recipient, the
/// rest stays in the vault; the ledger gives up all that the stream still
/// owed, and the record is closed.
pub open spec fn cancel_spec(
    program: Pubkey,
    a: Seq<AccountInfo>,
    roles: Roles,
    layout: Layout,
    ctx: Context,
) -> Result<Seq<ActionView>, ProgramError> {
    let source = a[roles.source as int];
    if !source.is_signer {
        Err(ProgramError::MissingRequiredSignature)
    } else {
        match resolved(program, a, roles, layout, ctx) {
            Err(e) => Err(e),
            Ok(res) => {
                let schedule = res.record.schedule;
                let settled = schedule.settlement(ctx.now);
                if !res.member {
                    Err(ProgramError::MissingRequiredSignature)
                } else if layout.multisig && !res.record.can_cancel {
                    Err(custom(TokenError::CancelNotAllowed))
                } else if schedule.cancel_error(ctx.now) is Some {
                    Err(schedule.cancel_error(ctx.now)->Some_0)
                } else if res.ledger < schedule.residual() {
                    Err(custom(TokenError::Overflow))
                } else {
                    Ok(
                        payout(a, roles, layout.token, source.key, settled.paid, res.vault_seeds)
                            + record_update(
                            a[roles.record as int].key,
                            source.key,
                            true,
                            record_bytes(layout, cancelled(res.record, settled.paid)),
                        ) + ledger_update(
                            a[roles.ledger as int].key,
                            source.key,
                            (res.ledger - schedule.residual()) as u64,
                        ),
                    )
                }
            },
        }
    }
}

/// Cancels a stream.
pub fn cancel(
    program_id: &Pubkey,
    accounts: &[AccountInfo],
    roles: &Roles,
    layout: Layout,
    ctx: &Context,
) -> (r: Result<Vec<Action>, ProgramError>)
    requires
        roles.within(accounts@.len() as int),
    ensures
        outcome_is(r, cancel_spec(*program_id, accounts@, *roles, layout, *ctx)),
{
    let source = &accounts[roles.source];
    if !source.is_signer {
        return Err(ProgramError::MissingRequiredSignature);
    }
    let (rec, _threshold, member, vault_seeds, ledger) = resolve(
        program_id,
        accounts,
        roles,
        layout,
        ctx,
    )?;
    if !member {
        return Err(ProgramError::MissingRequiredSignature);
    }
    if layout.multisig && !rec.can_cancel {
        return Err(ProgramError::from(TokenError::CancelNotAllowed));
    }
    let settled = rec.schedule.cancel(ctx.now)?;
    let residual = settled.paid + settled.refund;
    if ledger < residual {
        return Err(ProgramError::from(TokenError::Overflow));
    }
    let ghost before = rec@;
    let mut rec = rec;
    let total = rec.schedule.withdrawn + settled.paid;
    rec.schedule.amount = total;
    rec.schedule.withdrawn = total;
    assert(rec@ == cancelled(before, settled.paid));
    let data = rec.pack(layout)?;
    let mut out = no_actions();
    emit_payout(&mut out, accounts, roles, layout.token, &source.key, settled.paid, vault_seeds);
    emit_record_update(&mut out, &accounts[roles.record].key, &source.key, true, data);
    emit_ledger_update(&mut out, &accounts[roles.ledger].key, &source.key, ledger - residual);
    Ok(out)
}

/// Whether a pause or a resume may go on: the parties of the record are
/// the accounts named, one of the two signs and, for a multisig stream, the
/// first account is a member of the group whose safe the record names.
pub open spec fn parties_checked(
    program: Pubkey,
    a: Seq<AccountInfo>,
    roles: Roles,
    layout: Layout,
) -> Result<StreamRecordView, ProgramError> {
    let source = a[roles.source as int];
    let dest = a[roles.dest as int];
    match loaded_record(program, a[roles.record as int], layout) {
        Err(e) => Err(e),
        Ok(rec) => {
            let group = loaded_group(program, a[roles.group as int]);
            if layout.multisig && group is Err {
                Err(group->Err_0)
            } else if !source.is_signer && !dest.is_signer {
                Err(ProgramError::MissingRequiredSignature)
            } else if layout.multisig && group->Ok_0.multisig_safe != rec.multisig_safe {
                Err(custom(TokenError::OwnerMismatch))
            } else if layout.multisig && !is_member(group->Ok_0.signers, source.key) {
                Err(ProgramError::MissingRequiredSignature)
            } else if (!layout.multisig && rec.sender != source.key) || rec.recipient != dest.key {
                Err(custom(TokenError::EscrowMismatch))
            } else {
                Ok(rec)
            }
        },
    }
}

fn check_parties(program_id: &Pubkey, accounts: &[AccountInfo], roles: &Roles, layout: Layout) -> (r:
    Result<StreamRecord, ProgramError>)
    requires
        roles.within(accounts@.len() as int),
    ensures
        match r {
            Ok(rec) => parties_checked(*program_id, accounts@, *roles, layout) == Ok::<
                StreamRecordView,
                ProgramError,
            >(rec@) && rec.signed_by@.len() <= u32::MAX,
            Err(e) => parties_checked(*program_id, accounts@, *roles, layout) == Err::<
                StreamRecordView,
                ProgramError,
            >(e),
        },
{
    let source = &accounts[roles.source];
    let dest = &accounts[roles.dest];
    let rec = load_record(program_id, &accounts[roles.record], layout)?;
    if layout.multisig {
        let group = load_group(program_id, &accounts[roles.group])?;
        if !source.is_signer && !dest.is_signer {
            return Err(ProgramError::MissingRequiredSignature);
        }
        if group.multisig_safe != rec.multisig_safe {
            return Err(ProgramError::from(TokenError::OwnerMismatch));
        }
        if !contains_key(&group.signers, &source.key) {
            return Err(ProgramError::MissingRequiredSignature);
        }
    } else {
        if !source.is_signer && !dest.is_signer {
            return Err(ProgramError::MissingRequiredSignature);
        }
        if rec.sender != source.key {
            return Err(ProgramError::from(TokenError::EscrowMismatch));
        }
    }
    if rec.recipient != dest.key {
        return Err(ProgramError::from(TokenError::EscrowMismatch));
    }
    Ok(rec)
}

/// What a pause does: the record's schedule is paused at the clock's time.
pub open spec fn pause_spec(
    program: Pubkey,
    a: Seq<AccountInfo>,
    roles: Roles,
    layout: Layout,
    ctx: Context,
) -> Result<Seq<ActionView>, ProgramError> {
    match parties_checked(program, a, roles, layout) {
        Err(e) => Err(e),
        Ok(rec) => match rec.schedule.pause_error(ctx.now) {
            Some(e) => Err(e),
            None => Ok(
                seq![
                    ActionView::Write {
                        cell: a[roles.record as int].key,
                        data: record_bytes(
                            layout,
                            with_schedule(rec, rec.schedule.after_pause(ctx.now)),
                        ),
                    },
                ],
            ),
        },
    }
}

/// Pauses a stream.
pub fn pause(
    program_id: &Pubkey,
    accounts: &[AccountInfo],
    roles: &Roles,
    layout: Layout,
    ctx: &Context,
) -> (r: Result<Vec<Action>, ProgramError>)
    requires
        roles.within(accounts@.len() as int),
    ensures
        outcome_is(r, pause_spec(*program_id, accounts@, *roles, layout, *ctx)),
{
    let rec = check_parties(program_id, accounts, roles, layout)?;
    let next = rec.schedule.pause(ctx.now)?;
    let ghost before = rec@;
    let mut rec = rec;
    rec.schedule = next;
    assert(rec@ == with_schedule(before, next));
    let data = rec.pack(layout)?;
    let mut out = no_actions();
    emit(&mut out, Action::Write { cell: accounts[roles.record].key, data });
    assert(views(out@) =~= pause_spec(*program_id, accounts@, *roles, layout, *ctx)->Ok_0);
    Ok(out)
}

/// What a resume does: the record's window moves forward by the time spent
/// paused. A stream that waits for its approvals cannot be resumed.
pub open spec fn resume_spec(
    program: Pubkey,
    a: Seq<AccountInfo>,
    roles: Roles,
    layout: Layout,
    ctx: Context,
) -> Result<Seq<ActionView>, ProgramError> {
    match parties_checked(program, a, roles, layout) {
        Err(e) => Err(e),
        Ok(rec) => match rec.schedule.resume_error(ctx.now) {
            Some(e) => Err(e),
            None => Ok(
                seq![
                    ActionView::Write {
                        cell: a[roles.record as int].key,
                        data: record_bytes(
                            layout,
                            with_schedule(rec, rec.schedule.after_resume(ctx.now)),
                        ),
                    },
                ],
            ),
        },
    }
}

/// Resumes a stream.
pub fn resume(
    program_id: &Pubkey,
    accounts: &[AccountInfo],
    roles: &Roles,
    layout: Layout,
    ctx: &Context,
) -> (r: Result<Vec<Action>, ProgramError>)
    requires
        roles.within(accounts@.len() as int),
    ensures
        outcome_is(r, resume_spec(*program_id, accounts@, *roles, layout, *ctx)),
{
    let rec = check_parties(program_id, accounts, roles, layout)?;
    let next = rec.schedule.resume(ctx.now)?;
    let ghost before = rec@;
    let mut rec = rec;
    rec.schedule = next;
    assert(rec@ == with_schedule(before, next));
    let data = rec.pack(layout)?;
    let mut out = no_actions();
    emit(&mut out, Action::Write { cell: accounts[roles.record].key, data });
    assert(views(out@) =~= resume_spec(*program_id, accounts@, *roles, layout, *ctx)->Ok_0);
    Ok(out)
}

/// What a top-up does. The sender of the record signs; the schedule takes
/// the new end and `delta` more, and the ledger of the sender takes `delta`
/// more as well.
pub open spec fn fund_spec(
    program: Pubkey,
    a: Seq<AccountInfo>,
    roles: Roles,
    layout: Layout,
    end_time: u64,
    delta: u64,
) -> Result<Seq<ActionView>, ProgramError> {
    let source = a[roles.source as int];
    let ledger = a[roles.ledger as int];
    match loaded_record(program, a[roles.record as int], layout) {
        Err(e) => Err(e),
        Ok(rec) => {
            let ledger_check = checked_cell(
                program,
                ledger,
                ledger_tag(layout.token, false),
                source.key,
                ledger_mint(layout.token, rec.token_mint),
            );
            let amount = loaded_ledger(program, ledger);
            if !source.is_signer {
                Err(ProgramError::MissingRequiredSignature)
            } else if rec.sender != source.key {
                Err(custom(TokenError::OwnerMismatch))
            } else if ledger_check is Err {
                Err(ledger_check->Err_0)
            } else if rec.schedule.fund_error(end_time, delta) is Some {
                Err(rec.schedule.fund_error(end_time, delta)->Some_0)
            } else if amount is Err {
                Err(amount->Err_0)
            } else if amount->Ok_0 + delta > u64::MAX {
                Err(custom(TokenError::Overflow))
            } else {
                Ok(
                    seq![
                        ActionView::Write {
                            cell: a[roles.record as int].key,
                            data: record_bytes(
                                layout,
                                with_schedule(rec, rec.schedule.after_fund(end_time, delta)),
                            ),
                        },
                        ActionView::Write {
                            cell: ledger.key,
                            data: u64_bytes((amount->Ok_0 + delta) as u64),
                        },
                    ],
                )
            }
        },
    }
}

/// Tops a stream up.
pub fn fund(
    program_id: &Pubkey,
    accounts: &[AccountInfo],
    roles: &Roles,
    layout: Layout,
    end_time: u64,
    delta: u64,
) -> (r: Result<Vec<Action>, ProgramError>)
    requires
        roles.within(accounts@.len() as int),
    ensures
        outcome_is(r, fund_spec(*program_id, accounts@, *roles, layout, end_time, delta)),
{
    let source = &accounts[roles.source];
    let ledger = &accounts[roles.ledger];
    let rec = load_record(program_id, &accounts[roles.record], layout)?;
    if !source.is_signer {
        return Err(ProgramError::MissingRequiredSignature);
    }
    if rec.sender != source.key {
        return Err(ProgramError::from(TokenError::OwnerMismatch));
    }
    let mint = if layout.token { Some(rec.token_mint) } else { None };
    let _seeds = check_cell(program_id, ledger, ledger_tag_of(layout.token, false), &source.key, mint)?;
    let next = rec.schedule.fund(end_time, delta)?;
    let amount = load_ledger(program_id, ledger)?;
    let total = match amount.checked_add(delta) {
        Some(t) => t,
        None => {
            return Err(ProgramError::from(TokenError::Overflow));
        },
    };
    let ghost before = rec@;
    let mut rec = rec;
    rec.schedule = next;
    assert(rec@ == with_schedule(before, next));
    let data = rec.pack(layout)?;
    let mut out = no_actions();
    emit(&mut out, Action::Write { cell: accounts[roles.record].key, data });
    emit(&mut out, Action::Write { cell: ledger.key, data: write_ledger(total) });
    assert(views(out@) =~= fund_spec(*program_id, accounts@, *roles, layout, end_time, delta)->Ok_0);
    Ok(out)
}

/// The bytes of a new record cell of a layout, and the bytes and the number
/// of times for which its rent is paid.
pub open spec fn cell_space(layout: Layout) -> (u64, u64, u64) {
    if layout.multisig {
        if layout.token {
            (571, 216, 4)
        } else {
            (539, 539, 1)
        }
    } else if layout.token {
        (152, 152, 1)
    } else {
        (120, 120, 1)
    }
}

/// The record of a new stream.
pub open spec fn new_record(
    a: Seq<AccountInfo>,
    roles: Roles,
    layout: Layout,
    start_time: u64,
    end_time: u64,
    amount: u64,
    signed_by: Seq<WhiteList>,
    can_cancel: bool,
    safe: Pubkey,
) -> StreamRecordView {
    StreamRecordView {
        schedule: Schedule {
            start_time,
            end_time,
            paused: if layout.multisig {
                1
            } else {
                0
            },
            withdraw_limit: 0,
            amount,
            withdrawn: 0,
            paused_at: 0,
        },
        sender: a[roles.source as int].key,
        recipient: a[roles.dest as int].key,
        token_mint: if layout.token {
            a[roles.mint as int].key
        } else {
            zero_key()
        },
        signed_by: if layout.multisig {
            signed_by
        } else {
            Seq::empty()
        },
        multisig_safe: if layout.multisig {
            safe
        } else {
            zero_key()
        },
        can_cancel: layout.multisig && can_cancel,
    }
}

/// What the creation of a stream does. The sender signs; the window must be
/// open and in order and the record cell empty. A multisig stream is created
/// by a member of the group, paused until it has its approvals; the
/// approvals that the request brings must be of distinct members. The ledger
/// of the owner, which is created where it is missing, takes the stream's
/// amount; then the record cell is created and written.
pub open spec fn open_spec(
    program: Pubkey,
    a: Seq<AccountInfo>,
    roles: Roles,
    layout: Layout,
    start_time: u64,
    end_time: u64,
    amount: u64,
    signed_by: Seq<WhiteList>,
    can_cancel: bool,
    ctx: Context,
) -> Result<Seq<ActionView>, ProgramError> {
    let source = a[roles.source as int];
    let record = a[roles.record as int];
    let ledger = a[roles.ledger as int];
    let group = loaded_group(program, a[roles.group as int]);
    if layout.token && a[roles.token_program as int].key != token_program_key() {
        Err(ProgramError::IncorrectProgramId)
    } else if !source.is_signer {
        Err(ProgramError::MissingRequiredSignature)
    } else if ctx.now >= end_time {
        Err(custom(TokenError::TimeEnd))
    } else if start_time >= end_time {
        Err(custom(TokenError::InvalidInstruction))
    } else if a[roles.system_program as int].key != zero_key() {
        Err(custom(TokenError::PublicKeyMismatch))
    } else if record.data@.len() != 0 {
        Err(custom(TokenError::StreamAlreadyCreated))
    } else if layout.multisig && group is Err {
        Err(group->Err_0)
    } else if layout.multisig && !is_member(group->Ok_0.signers, source.key) {
        Err(ProgramError::MissingRequiredSignature)
    } else if layout.multisig && !(signed_by.len() <= u32::MAX && approvals_valid(
        signed_by,
        group->Ok_0.signers,
    )) {
        Err(custom(TokenError::InvalidInstruction))
    } else {
        let safe = if layout.multisig {
            group->Ok_0.multisig_safe
        } else {
            zero_key()
        };
        let ledger_check = checked_cell(
            program,
            ledger,
            ledger_tag(layout.token, layout.multisig),
            if layout.multisig {
                safe
            } else {
                source.key
            },
            ledger_mint(layout.token, a[roles.mint as int].key),
        );
        let missing = ledger.data@.len() == 0;
        let held = loaded_ledger(program, ledger);
        let before = if missing {
            0
        } else {
            held->Ok_0
        };
        if ledger_check is Err {
            Err(ledger_check->Err_0)
        } else if !missing && held is Err {
            Err(held->Err_0)
        } else if before + amount > u64::MAX {
            Err(custom(TokenError::Overflow))
        } else {
            Ok(
                (if missing {
                    seq![
                        create_cell(source.key, ledger.key, 8, 8, 1, program, Some(ledger_check->Ok_0)),
                    ]
                } else {
                    Seq::empty()
                }) + seq![
                    ActionView::Write { cell: ledger.key, data: u64_bytes((before + amount) as u64) },
                    create_cell(
                        source.key,
                        record.key,
                        cell_space(layout).0,
                        cell_space(layout).1,
                        cell_space(layout).2,
                        program,
                        None,
                    ),
                    ActionView::Write {
                        cell: record.key,
                        data: record_bytes(
                            layout,
                            new_record(
                                a,
                                roles,
                                layout,
                                start_time,
                                end_time,
                                amount,
                                signed_by,
                                can_cancel,
                                safe,
                            ),
                        ),
                    },
                ],
            )
        }
    }
}

/// Creates a stream.
pub fn open(
    program_id: &Pubkey,
    accounts: &[AccountInfo],
    roles: &Roles,
    layout: Layout,
    start_time: u64,
    end_time: u64,
    amount: u64,
    signed_by: Vec<WhiteList>,
    can_cancel: bool,
    ctx: &Context,
) -> (r: Result<Vec<Action>, ProgramError>)
    requires
        roles.within(accounts@.len() as int),
    ensures
        outcome_is(
            r,
            open_spec(
                *program_id,
                accounts@,
                *roles,
                layout,
                start_time,
                end_time,
                amount,
                signed_by@,
                can_cancel,
                *ctx,
            ),
        ),
{
    let source = &accounts[roles.source];
    let record = &accounts[roles.record];
    let ledger = &accounts[roles.ledger];
    if layout.token && accounts[roles.token_program].key != crate::utils::token_program_id() {
        return Err(ProgramError::IncorrectProgramId);
    }
    if !source.is_signer {
        return Err(ProgramError::MissingRequiredSignature);
    }
    if ctx.now >= end_time {
        return Err(ProgramError::from(TokenError::TimeEnd));
    }
    if start_time >= end_time {
        return Err(ProgramError::from(TokenError::InvalidInstruction));
    }
    if accounts[roles.system_program].key != crate::utils::system_program_id() {
        return Err(ProgramError::from(TokenError::PublicKeyMismatch));
    }
    if record.data.len() != 0 {
        return Err(ProgramError::from(TokenError::StreamAlreadyCreated));
    }
    let mut safe = zero_pubkey();
    if layout.multisig {
        let group = load_group(program_id, &accounts[roles.group])?;
        if !contains_key(&group.signers, &source.key) {
            return Err(ProgramError::MissingRequiredSignature);
        }
        if signed_by.len() > 0xffff_ffff || !check_approvals(&signed_by, &group.signers) {
            return Err(ProgramError::from(TokenError::InvalidInstruction));
        }
        safe = group.multisig_safe;
    }
    let owner = if layout.multisig { safe } else { source.key };
    let mint = if layout.token { Some(accounts[roles.mint].key) } else { None };
    let ledger_seeds = check_cell(
        program_id,
        ledger,
        ledger_tag_of(layout.token, layout.multisig),
        &owner,
        mint,
    )?;
    let missing = ledger.data.len() == 0;
    let before = if missing { 0 } else { load_ledger(program_id, ledger)? };
    let total = match before.checked_add(amount) {
        Some(t) => t,
        None => {
            return Err(ProgramError::from(TokenError::Overflow));
        },
    };
    let rec = StreamRecord {
        schedule: if layout.multisig {
            Schedule::new_pending(start_time, end_time, amount)
        } else {
            Schedule::new(start_time, end_time, amount)
        },
        sender: source.key,
        recipient: accounts[roles.dest].key,
        token_mint: if layout.token { accounts[roles.mint].key } else { zero_pubkey() },
        signed_by: if layout.multisig { signed_by } else { Vec::new() },
        multisig_safe: safe,
        can_cancel: layout.multisig && can_cancel,
    };
    assert(rec@.signed_by =~= new_record(
        accounts@,
        *roles,
        layout,
        start_time,
        end_time,
        amount,
        signed_by@,
        can_cancel,
        safe,
    ).signed_by);
    let data = rec.pack(layout)?;
    let (space, rent_space, rent_times): (u64, u64, u64) = if layout.multisig {
        if layout.token {
            (571, 216, 4)
        } else {
            (539, 539, 1)
        }
    } else if layout.token {
        (152, 152, 1)
    } else {
        (120, 120, 1)
    };
    let mut out = no_actions();
    if missing {
        emit(&mut out, create_pda_account_signed(source, 8, 1, 8, program_id, ledger, ledger_seeds));
    }
    emit(&mut out, Action::Write { cell: ledger.key, data: write_ledger(total) });
    emit(&mut out, create_pda_account(source, rent_space, rent_times, space, program_id, record));
    emit(&mut out, Action::Write { cell: record.key, data });
    assert(views(out@) =~= open_spec(
        *program_id,
        accounts@,
        *roles,
        layout,
        start_time,
        end_time,
        amount,
        signed_by@,
        can_cancel,
        *ctx,
    )->Ok_0);
    Ok(out)
}

} // verus!
