//! What holds of the engine as a whole: the release calculator's bounds,
//! the pause, the lockstep of ledgers and records, and the approvals.
use vstd::prelude::*;
use crate::account::{AccountInfo, ActionView, Seeds};
use crate::checks::{
    ledger_update, loaded_ledger, loaded_record, native_payout, record_update, Context,
};
use crate::codec::{lemma_int_bytes_len, lemma_u64_round_trip, u64_bytes};
use crate::error::{custom, ProgramError, TokenError};
use crate::group::{is_member, law_proposal_round_trip, ledger_of, proposal_bytes, proposal_of};
use crate::keys::Pubkey;
use crate::multisig::{
    approval_of, approved, proposal_approved, reject_spec, sign_spec, sign_transfer_spec,
};
use crate::record::{
    law_record_round_trip, lemma_record_len, record_bytes, record_of, Layout, StreamRecordView,
    WhiteList,
};
use crate::schedule::{
    commission, lemma_half, lemma_linear_monotone, lemma_released_bounds, released, Schedule,
};
use crate::stream::{
    cancel_spec, cancelled, fund_spec, new_record, open_spec, resolved, with_schedule,
    withdraw_spec, Roles,
};
use crate::vault::{vault_balance, vault_withdraw_spec};

verus! {

/// A release is never more than the total, whatever the clock says. At the
/// end of the window all is released. Of a window in order, nothing is
/// released before the start.
pub proof fn law_released_bounds(start: u64, end: u64, amount: u64, now: u64)
    ensures
        0 <= released(start, end, amount, now) <= amount,
        released(start, end, amount, end) == amount,
        start < end && now < start ==> released(start, end, amount, now) == 0,
{
    lemma_released_bounds(start, end, amount, now);
}

/// What is released never shrinks as the clock goes on.
pub proof fn law_released_monotone(start: u64, end: u64, amount: u64, earlier: u64, later: u64)
    requires
        earlier <= later,
    ensures
        released(start, end, amount, earlier) <= released(start, end, amount, later),
{
    lemma_released_bounds(start, end, amount, earlier);
    lemma_released_bounds(start, end, amount, later);
    if later < end && earlier > start {
        lemma_linear_monotone(earlier - start, later - start, amount as int, end - start);
    }
}

/// At its start a stream has released nothing; at its end, a stream that
/// runs lets all be withdrawn that has not been; and at the middle of a
/// window of even length half of the total is released, rounded down.
pub proof fn law_boundaries(s: Schedule)
    requires
        s.wf(),
    ensures
        s.released_at(s.start_time) == 0,
        s.paused == 0 ==> s.available(s.end_time) == s.amount - s.withdrawn,
        (s.end_time - s.start_time) % 2 == 0 ==> s.released_at(
            ((s.start_time + s.end_time) / 2) as u64,
        ) == s.amount / 2,
{
    let span = s.end_time - s.start_time;
    if span % 2 == 0 {
        let half = span / 2;
        assert(((s.start_time + s.end_time) / 2) as u64 - s.start_time == half);
        lemma_half(half, s.amount as int);
    }
}

/// No operation on a stream lowers what was withdrawn from it.
pub proof fn law_withdrawn_monotone(s: Schedule, amount: u64, now: u64, end_time: u64, delta: u64)
    requires
        s.wf(),
    ensures
        s.withdraw_error(amount, now) is None ==> s.after_withdraw(amount).withdrawn >= s.withdrawn,
        s.after_pause(now).withdrawn == s.withdrawn,
        s.after_resume(now).withdrawn == s.withdrawn,
        s.after_fund(end_time, delta).withdrawn == s.withdrawn,
        s.after_legacy_withdraw(amount).withdrawn == s.withdrawn,
        s.cancel_error(now) is None ==> s.withdrawn + s.settlement(now).paid >= s.withdrawn,
{
    lemma_released_bounds(s.start_time, s.end_time, s.amount, now);
}

/// Every operation keeps the invariant of a schedule.
pub proof fn law_schedule_stays_well_formed(
    s: Schedule,
    amount: u64,
    now: u64,
    end_time: u64,
    delta: u64,
)
    requires
        s.wf(),
    ensures
        s.withdraw_error(amount, now) is None ==> s.after_withdraw(amount).wf(),
        s.pause_error(now) is None ==> s.after_pause(now).wf(),
        s.resume_error(now) is None ==> s.after_resume(now).wf(),
        s.fund_error(end_time, delta) is None ==> s.after_fund(end_time, delta).wf(),
{
    lemma_released_bounds(s.start_time, s.end_time, s.amount, now);
}

/// While a stream is paused, no more can be withdrawn than its withdraw
/// limit; and from the pause on, whatever the clock says, exactly what was
/// open at the time of the pause.
pub proof fn law_pause_freezes(s: Schedule, paused_at: u64, now: u64)
    requires
        s.wf(),
    ensures
        s.paused == 1 ==> s.available(now) <= s.withdraw_limit,
        s.pause_error(paused_at) is None && now >= paused_at ==> s.after_pause(paused_at).available(
            now,
        ) == s.available(paused_at),
{
    if s.pause_error(paused_at) is None && now >= paused_at {
        law_released_monotone(s.start_time, s.end_time, s.amount, paused_at, now);
        lemma_released_bounds(s.start_time, s.end_time, s.amount, paused_at);
    }
}

/// What withdrawals take during a pause comes off the withdraw limit: the
/// limit and what was withdrawn move by the same amount.
pub proof fn law_paused_withdrawal(s: Schedule, amount: u64, now: u64)
    requires
        s.wf(),
        s.paused == 1,
        s.withdraw_error(amount, now) is None,
    ensures
        s.after_withdraw(amount).withdraw_limit + amount == s.withdraw_limit,
        s.after_withdraw(amount).paused == 1,
{
}

/// The sum of what the streams of a list still owe.
pub open spec fn residual_sum(streams: Seq<Schedule>) -> int
    decreases streams.len(),
{
    if streams.len() == 0 {
        0
    } else {
        residual_sum(streams.drop_last()) + streams.last().residual()
    }
}

/// One operation on the streams of one owner and one asset, with what it
/// does to the reservation ledger.
pub enum Step {
    /// A stream is created: the ledger takes its amount.
    Create { stream: Schedule },
    /// The recipient withdraws: the ledger gives the amount up.
    Withdraw { index: int, amount: u64, now: u64 },
    /// The stream is paused, resumed or approved: the ledger stays.
    Pause { index: int, now: u64 },
    Resume { index: int, now: u64 },
    /// The stream is topped up: the ledger takes the addition.
    Fund { index: int, end_time: u64, delta: u64 },
    /// The stream is cancelled or rejected: the ledger gives up all that it
    /// owed, paid and refunded, and the record is closed.
    Close { index: int },
}

/// The live streams of one owner and one asset, and their ledger.
pub struct Book {
    pub streams: Seq<Schedule>,
    pub ledger: int,
}

/// The book after a step that its operation accepts.
pub open spec fn after_step(book: Book, step: Step) -> Option<Book> {
    match step {
        Step::Create { stream } => if stream.withdrawn == 0 {
            Some(Book { streams: book.streams.push(stream), ledger: book.ledger + stream.amount })
        } else {
            None
        },
        Step::Withdraw { index, amount, now } => if 0 <= index < book.streams.len()
            && book.streams[index].withdraw_error(amount, now) is None {
            Some(
                Book {
                    streams: book.streams.update(index, book.streams[index].after_withdraw(amount)),
                    ledger: book.ledger - amount,
                },
            )
        } else {
            None
        },
        Step::Pause { index, now } => if 0 <= index < book.streams.len()
            && book.streams[index].pause_error(now) is None {
            Some(
                Book {
                    streams: book.streams.update(index, book.streams[index].after_pause(now)),
                    ..book
                },
            )
        } else {
            None
        },
        Step::Resume { index, now } => if 0 <= index < book.streams.len()
            && book.streams[index].resume_error(now) is None {
            Some(
                Book {
                    streams: book.streams.update(index, book.streams[index].after_resume(now)),
                    ..book
                },
            )
        } else {
            None
        },
        Step::Fund { index, end_time, delta } => if 0 <= index < book.streams.len()
            && book.streams[index].fund_error(end_time, delta) is None {
            Some(
                Book {
                    streams: book.streams.update(
                        index,
                        book.streams[index].after_fund(end_time, delta),
                    ),
                    ledger: book.ledger + delta,
                },
            )
        } else {
            None
        },
        Step::Close { index } => if 0 <= index < book.streams.len() {
            Some(
                Book {
                    streams: book.streams.remove(index),
                    ledger: book.ledger - book.streams[index].residual(),
                },
            )
        } else {
            None
        },
    }
}

proof fn lemma_sum_update(streams: Seq<Schedule>, index: int, next: Schedule)
    requires
        0 <= index < streams.len(),
    ensures
        residual_sum(streams.update(index, next)) == residual_sum(streams) - streams[index].residual()
            + next.residual(),
    decreases streams.len(),
{
    let updated = streams.update(index, next);
    if index == streams.len() - 1 {
        assert(updated.drop_last() =~= streams.drop_last());
    } else {
        assert(updated.drop_last() =~= streams.drop_last().update(index, next));
        lemma_sum_update(streams.drop_last(), index, next);
    }
}

proof fn lemma_sum_remove(streams: Seq<Schedule>, index: int)
    requires
        0 <= index < streams.len(),
    ensures
        residual_sum(streams.remove(index)) == residual_sum(streams) - streams[index].residual(),
    decreases streams.len(),
{
    let removed = streams.remove(index);
    if index == streams.len() - 1 {
        assert(removed =~= streams.drop_last());
    } else {
        assert(removed.drop_last() =~= streams.drop_last().remove(index));
        assert(removed.last() == streams.last());
        lemma_sum_remove(streams.drop_last(), index);
    }
}

/// The ledger is what the live streams still owe, after every operation:
/// where it was their sum before a step, it is their sum after it.
pub proof fn law_ledger_is_residual(book: Book, step: Step)
    requires
        book.ledger == residual_sum(book.streams),
        forall|i: int| 0 <= i < book.streams.len() ==> (#[trigger] book.streams[i]).wf(),
        after_step(book, step) is Some,
    ensures
        after_step(book, step)->Some_0.ledger == residual_sum(after_step(book, step)->Some_0.streams),
{
    match step {
        Step::Create { stream } => {
            assert(book.streams.push(stream).drop_last() =~= book.streams);
        },
        Step::Withdraw { index, amount, now } => {
            let s = book.streams[index];
            lemma_released_bounds(s.start_time, s.end_time, s.amount, now);
            lemma_sum_update(book.streams, index, s.after_withdraw(amount));
        },
        Step::Pause { index, now } => {
            lemma_sum_update(book.streams, index, book.streams[index].after_pause(now));
        },
        Step::Resume { index, now } => {
            lemma_sum_update(book.streams, index, book.streams[index].after_resume(now));
        },
        Step::Fund { index, end_time, delta } => {
            lemma_sum_update(book.streams, index, book.streams[index].after_fund(end_time, delta));
        },
        Step::Close { index } => {
            lemma_sum_remove(book.streams, index);
        },
    }
}

/// Within one request the ledger and the record move together. Where a
/// withdrawal succeeds, the record that it writes owes `amount` less and
/// the ledger that it writes holds `amount` less.
pub proof fn law_withdraw_moves_both(
    program: Pubkey,
    a: Seq<AccountInfo>,
    roles: Roles,
    layout: Layout,
    amount: u64,
    ctx: Context,
)
    requires
        layout.current,
        withdraw_spec(program, a, roles, layout, amount, ctx) is Ok,
    ensures
        ({
            let res = resolved(program, a, roles, layout, ctx)->Ok_0;
            let next = res.record.schedule.after_withdraw(amount);
            let actions = withdraw_spec(program, a, roles, layout, amount, ctx)->Ok_0;
            let n = actions.len() as int;
            &&& next.residual() == res.record.schedule.residual() - amount
            &&& actions[n - 1] == (ActionView::Write {
                cell: a[roles.ledger as int].key,
                data: u64_bytes((res.ledger - amount) as u64),
            })
            &&& exists|i: int|
                0 <= i < n && actions[i] == (ActionView::Write {
                    cell: a[roles.record as int].key,
                    data: record_bytes(layout, with_schedule(res.record, next)),
                })
        }),
{
    let res = resolved(program, a, roles, layout, ctx)->Ok_0;
    let s = res.record.schedule;
    let next = s.after_withdraw(amount);
    lemma_released_bounds(s.start_time, s.end_time, s.amount, ctx.now);
    let record = record_update(
        a[roles.record as int].key,
        a[roles.source as int].key,
        next.amount == next.withdrawn,
        record_bytes(layout, with_schedule(res.record, next)),
    );
    let ledger = ledger_update(
        a[roles.ledger as int].key,
        a[roles.source as int].key,
        (res.ledger - amount) as u64,
    );
    let actions = withdraw_spec(program, a, roles, layout, amount, ctx)->Ok_0;
    let n = actions.len() as int;
    assert(actions[n - 1] == ledger[ledger.len() - 1]);
    assert(actions[n - ledger.len() - 1] == record[record.len() - 1]);
}

/// Where a cancel or a rejection succeeds, the ledger that it writes holds
/// less by all that the stream still owed.
pub proof fn law_close_gives_up_residual(
    program: Pubkey,
    a: Seq<AccountInfo>,
    roles: Roles,
    layout: Layout,
    ctx: Context,
)
    ensures
        cancel_spec(program, a, roles, layout, ctx) matches Ok(actions) ==> actions[actions.len()
            - 1] == (ActionView::Write {
            cell: a[roles.ledger as int].key,
            data: u64_bytes(
                (resolved(program, a, roles, layout, ctx)->Ok_0.ledger - resolved(
                    program,
                    a,
                    roles,
                    layout,
                    ctx,
                )->Ok_0.record.schedule.residual()) as u64,
            ),
        }),
        reject_spec(program, a, roles, layout, ctx) matches Ok(actions) ==> actions[actions.len()
            - 1] == (ActionView::Write {
            cell: a[roles.ledger as int].key,
            data: u64_bytes(
                (loaded_ledger(program, a[roles.ledger as int])->Ok_0 - loaded_record(
                    program,
                    a[roles.record as int],
                    layout,
                )->Ok_0.schedule.residual()) as u64,
            ),
        }),
{
    if cancel_spec(program, a, roles, layout, ctx) is Ok {
        let res = resolved(program, a, roles, layout, ctx)->Ok_0;
        let ledger = ledger_update(
            a[roles.ledger as int].key,
            a[roles.source as int].key,
            (res.ledger - res.record.schedule.residual()) as u64,
        );
        let actions = cancel_spec(program, a, roles, layout, ctx)->Ok_0;
        assert(actions[actions.len() - 1] == ledger[ledger.len() - 1]);
    }
    if reject_spec(program, a, roles, layout, ctx) is Ok {
        let rec = loaded_record(program, a[roles.record as int], layout)->Ok_0;
        let held = loaded_ledger(program, a[roles.ledger as int])->Ok_0;
        let ledger = ledger_update(
            a[roles.ledger as int].key,
            a[roles.dest as int].key,
            (held - rec.schedule.residual()) as u64,
        );
        let actions = reject_spec(program, a, roles, layout, ctx)->Ok_0;
        assert(actions[actions.len() - 1] == ledger[ledger.len() - 1]);
    }
}

/// Where a top-up succeeds, the record and the ledger that it writes hold
/// `delta` more than before.
pub proof fn law_fund_moves_both(
    program: Pubkey,
    a: Seq<AccountInfo>,
    roles: Roles,
    layout: Layout,
    end_time: u64,
    delta: u64,
)
    requires
        fund_spec(program, a, roles, layout, end_time, delta) is Ok,
    ensures
        ({
            let rec = loaded_record(program, a[roles.record as int], layout)->Ok_0;
            let held = loaded_ledger(program, a[roles.ledger as int])->Ok_0;
            let next = rec.schedule.after_fund(end_time, delta);
            &&& next.residual() == rec.schedule.residual() + delta
            &&& fund_spec(program, a, roles, layout, end_time, delta)->Ok_0 == seq![
                ActionView::Write {
                    cell: a[roles.record as int].key,
                    data: record_bytes(layout, with_schedule(rec, next)),
                },
                ActionView::Write {
                    cell: a[roles.ledger as int].key,
                    data: u64_bytes((held + delta) as u64),
                },
            ]
        }),
{
}

/// Where a creation succeeds, the ledger that it writes holds the stream's
/// amount more than before, and the record that it writes owes that amount.
pub proof fn law_creation_reserves_amount(
    program: Pubkey,
    a: Seq<AccountInfo>,
    roles: Roles,
    layout: Layout,
    start_time: u64,
    end_time: u64,
    amount: u64,
    signed_by: Seq<WhiteList>,
    can_cancel: bool,
    ctx: Context,
)
    requires
        open_spec(
            program,
            a,
            roles,
            layout,
            start_time,
            end_time,
            amount,
            signed_by,
            can_cancel,
            ctx,
        ) is Ok,
    ensures
        ({
            let actions = open_spec(
                program,
                a,
                roles,
                layout,
                start_time,
                end_time,
                amount,
                signed_by,
                can_cancel,
                ctx,
            )->Ok_0;
            let ledger = a[roles.ledger as int];
            let before = if ledger.data@.len() == 0 {
                0
            } else {
                loaded_ledger(program, ledger)->Ok_0
            };
            let n = actions.len() as int;
            &&& actions[n - 3] == (ActionView::Write {
                cell: ledger.key,
                data: u64_bytes((before + amount) as u64),
            })
            &&& actions[n - 1] matches ActionView::Write { cell, data }
            &&& cell == a[roles.record as int].key
            &&& exists|rec: StreamRecordView|
                data == record_bytes(layout, rec) && rec.schedule.residual() == amount
                    && rec.schedule.wf() && (layout.multisig ==> rec.schedule.pending())
        }),
{
    let safe = if layout.multisig {
        crate::checks::loaded_group(program, a[roles.group as int])->Ok_0.multisig_safe
    } else {
        crate::keys::zero_key()
    };
    let rec = new_record(a, roles, layout, start_time, end_time, amount, signed_by, can_cancel, safe);
    assert(rec.schedule.residual() == amount && rec.schedule.wf());
}

/// A record that is written again with as many approvals as before fits
/// the cell that it was read from.
pub proof fn law_rewrite_fits(layout: Layout, data: Seq<u8>, next: StreamRecordView)
    requires
        record_of(layout, data) is Some,
        next.signed_by.len() == record_of(layout, data)->Some_0.signed_by.len(),
    ensures
        record_bytes(layout, next).len() <= data.len(),
{
    lemma_record_len(layout, next);
}

/// A release pays the fee sink 25 basis points of the amount, rounded down,
/// and the recipient the rest: the two transfers take the amount out of the
/// vault and nothing more.
pub proof fn law_payout_is_the_amount(vault: Pubkey, fee: Pubkey, dest: Pubkey, amount: u64, seeds: Seeds)
    ensures
        commission(amount) == amount * 25 / 10_000,
        0 <= commission(amount) <= amount,
        native_payout(vault, fee, dest, amount, seeds).len() == 2,
        native_payout(vault, fee, dest, amount, seeds)[0]->Transfer_lamports + native_payout(
            vault,
            fee,
            dest,
            amount,
            seeds,
        )[1]->Transfer_lamports == amount,
        native_payout(vault, fee, dest, amount, seeds)[0]->Transfer_to == fee,
        native_payout(vault, fee, dest, amount, seeds)[1]->Transfer_to == dest,
{
}

/// A cancel settles all that the stream still owed: what is paid and what
/// is refunded are together the residual, which the ledger gives up. A
/// cancel before the start pays the recipient nothing.
pub proof fn law_cancel_settles_residual(s: Schedule, now: u64)
    requires
        s.cancel_error(now) is None,
    ensures
        s.settlement(now).paid + s.settlement(now).refund == s.residual(),
        s.wf() && now <= s.start_time ==> s.settlement(now).paid == 0,
{
    lemma_released_bounds(s.start_time, s.end_time, s.amount, now);
}

/// A vault that covers its ledger covers it after a deposit, a release and
/// a cancel: a deposit adds to the vault alone, a release takes the same
/// from the vault and from the ledger, and a cancel takes from the vault no
/// more than from the ledger.
pub proof fn law_vault_stays_solvent(vault: int, ledger: int, s: Schedule, amount: u64, now: u64)
    requires
        vault >= ledger,
        s.wf(),
    ensures
        vault + amount >= ledger,
        s.withdraw_error(amount, now) is None ==> vault - amount >= ledger - amount,
        s.cancel_error(now) is None ==> vault - s.settlement(now).paid >= ledger - s.residual(),
{
    lemma_released_bounds(s.start_time, s.end_time, s.amount, now);
}

/// A free withdrawal never takes reserved funds: where the sender has a
/// ledger and the withdrawal succeeds, what stays in the vault covers it.
pub proof fn law_free_withdrawal_keeps_reserve(
    program: Pubkey,
    a: Seq<AccountInfo>,
    roles: Roles,
    token: bool,
    to_safe: bool,
    amount: u64,
)
    requires
        vault_withdraw_spec(program, a, roles, token, to_safe, amount) is Ok,
        a[roles.ledger as int].data@.len() != 0,
    ensures
        vault_balance(a, roles, token) is Some,
        loaded_ledger(program, a[roles.ledger as int]) is Ok,
        vault_balance(a, roles, token)->Some_0 - amount >= loaded_ledger(
            program,
            a[roles.ledger as int],
        )->Ok_0,
{
}

/// A multisig stream is withdrawable when it has its approvals and is not paused.
pub open spec fn withdrawable(rec: StreamRecordView, threshold: u8) -> bool {
    rec.signed_by.len() >= threshold && rec.schedule.paused == 0
}

/// A multisig stream needs its approvals. Of a stream that no pause holds,
/// a positive amount is withdrawn only where the stream has its approvals
/// and is not paused. And where it has them and is not paused, nothing else
/// stands in the way of the withdrawal: it succeeds exactly where the
/// schedule releases the amount and the ledger covers it.
pub proof fn law_multisig_needs_approvals(
    program: Pubkey,
    a: Seq<AccountInfo>,
    roles: Roles,
    layout: Layout,
    amount: u64,
    ctx: Context,
)
    requires
        layout.multisig && layout.current,
        a[roles.dest as int].is_signer,
        resolved(program, a, roles, layout, ctx) is Ok,
        resolved(program, a, roles, layout, ctx)->Ok_0.record.schedule.wf(),
        resolved(program, a, roles, layout, ctx)->Ok_0.record.schedule.paused_at == 0,
    ensures
        ({
            let res = resolved(program, a, roles, layout, ctx)->Ok_0;
            let outcome = withdraw_spec(program, a, roles, layout, amount, ctx);
            &&& outcome is Ok && amount > 0 ==> withdrawable(res.record, res.threshold)
            &&& withdrawable(res.record, res.threshold) ==> (outcome is Ok
                <==> res.record.schedule.withdraw_error(amount, ctx.now) is None && res.ledger
                >= amount)
        }),
{
}

/// An approval keeps the approvals of a stream distinct members of its
/// group, and a stream that waits goes on waiting below the threshold and
/// runs from the threshold on.
pub proof fn law_approval_keeps_invariant(
    rec: StreamRecordView,
    signers: Seq<crate::record::WhiteList>,
    key: Pubkey,
    m: u8,
)
    requires
        crate::group::distinct(rec.signed_by),
        crate::group::subset_of(rec.signed_by, signers),
        is_member(signers, key),
        !is_member(rec.signed_by, key),
        rec.schedule.wf(),
    ensures
        crate::group::distinct(approved(rec, key, m).signed_by),
        crate::group::subset_of(approved(rec, key, m).signed_by, signers),
        approved(rec, key, m).signed_by.len() == rec.signed_by.len() + 1,
        approved(rec, key, m).schedule.wf(),
        rec.schedule.pending() ==> (approved(rec, key, m).schedule.paused == 0 <==> rec.signed_by.len()
            + 1 >= m),
        !rec.schedule.pending() ==> approved(rec, key, m).schedule == rec.schedule,
{
    let next = approved(rec, key, m).signed_by;
    assert forall|i: int, j: int| 0 <= i < j < next.len() implies #[trigger] next[i].address
        != #[trigger] next[j].address by {
        if j == next.len() - 1 {
            assert(rec.signed_by[i].address != key);
        } else {
            assert(rec.signed_by[i].address != rec.signed_by[j].address);
        }
    }
    assert forall|i: int| 0 <= i < next.len() implies is_member(signers, #[trigger] next[i].address) by {
        if i < next.len() - 1 {
            assert(is_member(signers, rec.signed_by[i].address));
        }
    }
}

/// A second approval of the same member changes nothing: where an approval
/// succeeded and the cell holds what it wrote, the same member's next
/// approval fails with `PublicKeyMismatch`, whatever the clock says.
pub proof fn law_second_approval_fails(
    program: Pubkey,
    a: Seq<AccountInfo>,
    again: Seq<AccountInfo>,
    roles: Roles,
    layout: Layout,
    ctx: Context,
    later: Context,
)
    requires
        layout.multisig,
        roles.within(a.len() as int),
        roles.record != roles.group && roles.record != roles.source,
        sign_spec(program, a, roles, layout, ctx) is Ok,
        again.len() == a.len(),
        forall|i: int| 0 <= i < a.len() && i != roles.record ==> again[i] == a[i],
        again[roles.record as int].owner == a[roles.record as int].owner,
        ({
            let written = sign_spec(program, a, roles, layout, ctx)->Ok_0[0]->Write_data;
            let old_data = a[roles.record as int].data@;
            again[roles.record as int].data@ == written + old_data.subrange(
                written.len() as int,
                old_data.len() as int,
            )
        }),
        later.now <= ctx.now,
    ensures
        sign_spec(program, again, roles, layout, later) == Err::<Seq<ActionView>, ProgramError>(
            custom(TokenError::PublicKeyMismatch),
        ),
{
    let source = a[roles.source as int];
    let rec = record_of(layout, a[roles.record as int].data@)->Some_0;
    let group = crate::checks::loaded_group(program, a[roles.group as int])->Ok_0;
    let next = approved(rec, source.key, group.m);
    let written = record_bytes(layout, next);
    let old_data = a[roles.record as int].data@;
    let rest = old_data.subrange(written.len() as int, old_data.len() as int);
    assert(sign_spec(program, a, roles, layout, ctx)->Ok_0[0]->Write_data == written);
    crate::state::lemma_read_fits(layout, old_data);
    assert(next.fits(layout));
    law_record_round_trip(layout, next, rest);
    assert(record_of(layout, again[roles.record as int].data@) == Some(next));
    assert(next.signed_by[next.signed_by.len() - 1] == approval_of(source.key));
    assert(is_member(next.signed_by, source.key));
    lemma_record_len(layout, next);
}

/// A second approval of a transfer proposal by the same member changes
/// nothing: where an approval below the threshold succeeded and the cell
/// holds what it wrote, the same member's next approval fails with
/// `PublicKeyMismatch`.
pub proof fn law_second_proposal_approval_fails(
    program: Pubkey,
    a: Seq<AccountInfo>,
    again: Seq<AccountInfo>,
    roles: Roles,
    token: bool,
)
    requires
        roles.within(a.len() as int),
        roles.record != roles.group && roles.record != roles.source,
        sign_transfer_spec(program, a, roles, token) is Ok,
        sign_transfer_spec(program, a, roles, token)->Ok_0.len() == 1,
        again.len() == a.len(),
        forall|i: int| 0 <= i < a.len() && i != roles.record ==> again[i] == a[i],
        again[roles.record as int].owner == a[roles.record as int].owner,
        ({
            let written = sign_transfer_spec(program, a, roles, token)->Ok_0[0]->Write_data;
            let old_data = a[roles.record as int].data@;
            again[roles.record as int].data@ == written + old_data.subrange(
                written.len() as int,
                old_data.len() as int,
            )
        }),
    ensures
        sign_transfer_spec(program, again, roles, token) == Err::<Seq<ActionView>, ProgramError>(
            custom(TokenError::PublicKeyMismatch),
        ),
{
    let source = a[roles.source as int];
    let p = proposal_of(token, a[roles.record as int].data@)->Some_0;
    let next = proposal_approved(p, source.key);
    let written = proposal_bytes(token, next);
    let old_data = a[roles.record as int].data@;
    let rest = old_data.subrange(written.len() as int, old_data.len() as int);
    assert(sign_transfer_spec(program, a, roles, token)->Ok_0[0]->Write_data == written);
    law_proposal_round_trip(token, next, rest);
    assert(proposal_of(token, again[roles.record as int].data@) == Some(next));
    assert(next.signed_by[next.signed_by.len() - 1] == approval_of(source.key));
    assert(is_member(next.signed_by, source.key));
}

/// Writing a ledger and reading the cell back gives the amount.
pub proof fn law_ledger_round_trip(amount: u64)
    ensures
        ledger_of(u64_bytes(amount)) == Some(amount),
{
    lemma_int_bytes_len(amount, 0);
    assert(u64_bytes(amount).subrange(0, 8) =~= u64_bytes(amount));
    lemma_u64_round_trip(amount, u64_bytes(amount), 0);
}

} // verus!
