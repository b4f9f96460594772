//! The handlers of the program's requests. Each names the accounts of its
//! request by their place in the list and hands them to the operation that
//! serves every record variant.
use vstd::prelude::*;
use crate::account::{AccountInfo, Action, ActionView};
use crate::checks::Context;
use crate::error::{custom, ProgramError, TokenError};
use crate::group::Multisig;
use crate::instruction::{decoded, InstructionView, TokenInstruction};
use crate::keys::Pubkey;
use crate::multisig::{
    create_multisig_spec, propose_spec, reject_spec, reject_transfer_spec, sign_spec,
    sign_transfer_spec,
};
use crate::record::Layout;
use crate::state::{EscrowMultisig, SolTransfer, TokenEscrowMultisig, TokenTransfer};
use crate::stream::{
    cancel_spec, fund_spec, open_spec, outcome_is, pause_spec, resume_spec, withdraw_spec,
    Roles,
};
use crate::vault::{deposit_spec, vault_withdraw_spec};

verus! {

/// What a handler that needs `count` accounts makes of a list: with fewer it
/// fails, with enough it goes on.
pub open spec fn routed(
    a: Seq<AccountInfo>,
    count: int,
    inner: Result<Seq<ActionView>, ProgramError>,
) -> Result<Seq<ActionView>, ProgramError> {
    if a.len() < count {
        Err(ProgramError::NotEnoughAccountKeys)
    } else {
        inner
    }
}

/// No role is given a place yet.
pub open spec fn no_roles() -> Roles {
    Roles {
        source: 0,
        dest: 0,
        vault: 0,
        record: 0,
        ledger: 0,
        fee: 0,
        group: 0,
        token_program: 0,
        mint: 0,
        vault_token: 0,
        dest_token: 0,
        fee_token: 0,
        source_token: 0,
        system_program: 0,
    }
}

fn unplaced() -> (r: Roles)
    ensures
        r == no_roles(),
{
    Roles {
        source: 0,
        dest: 0,
        vault: 0,
        record: 0,
        ledger: 0,
        fee: 0,
        group: 0,
        token_program: 0,
        mint: 0,
        vault_token: 0,
        dest_token: 0,
        fee_token: 0,
        source_token: 0,
        system_program: 0,
    }
}

/// The accounts of this request are, in their order: the sender, the
/// recipient, the record, the ledger, the system program.
pub open spec fn native_create_roles() -> Roles {
    Roles {
        source: 0,
        dest: 1,
        record: 2,
        ledger: 3,
        system_program: 4,
        ..no_roles()
    }
}

fn native_create() -> (r: Roles)
    ensures
        r == native_create_roles(),
        r.within(5),
{
    Roles {
        source: 0,
        dest: 1,
        record: 2,
        ledger: 3,
        system_program: 4,
        ..unplaced()
    }
}

/// The accounts of this request are, in their order: the sender, the
/// recipient, the vault, the record, the ledger, the system program, the
/// fee sink.
pub open spec fn native_release_roles() -> Roles {
    Roles {
        source: 0,
        dest: 1,
        vault: 2,
        record: 3,
        ledger: 4,
        fee: 6,
        system_program: 5,
        ..no_roles()
    }
}

fn native_release() -> (r: Roles)
    ensures
        r == native_release_roles(),
        r.within(7),
{
    Roles {
        source: 0,
        dest: 1,
        vault: 2,
        record: 3,
        ledger: 4,
        fee: 6,
        system_program: 5,
        ..unplaced()
    }
}

/// The accounts of this request are, in their order: the sender, the
/// recipient, the record.
pub open spec fn parties_roles() -> Roles {
    Roles {
        source: 0,
        dest: 1,
        record: 2,
        ..no_roles()
    }
}

fn parties() -> (r: Roles)
    ensures
        r == parties_roles(),
        r.within(3),
{
    Roles {
        source: 0,
        dest: 1,
        record: 2,
        ..unplaced()
    }
}

/// The accounts of this request are, in their order: the sender, the
/// recipient, the record, the ledger, the token program, the system
/// program, the mint.
pub open spec fn token_create_roles() -> Roles {
    Roles {
        source: 0,
        dest: 1,
        record: 2,
        ledger: 3,
        token_program: 4,
        mint: 6,
        system_program: 5,
        ..no_roles()
    }
}

fn token_create() -> (r: Roles)
    ensures
        r == token_create_roles(),
        r.within(7),
{
    Roles {
        source: 0,
        dest: 1,
        record: 2,
        ledger: 3,
        token_program: 4,
        mint: 6,
        system_program: 5,
        ..unplaced()
    }
}

/// The accounts of this request are, in their order: the sender, the
/// recipient, the vault, the record, the ledger, the token program, the
/// mint, the rent sysvar, the token accounts of the vault and of the
/// recipient, the associated-token program, the system program, the fee
/// sink and its token account.
pub open spec fn token_withdraw_roles() -> Roles {
    Roles {
        source: 0,
        dest: 1,
        vault: 2,
        record: 3,
        ledger: 4,
        fee: 12,
        token_program: 5,
        mint: 6,
        vault_token: 8,
        dest_token: 9,
        fee_token: 13,
        system_program: 11,
        ..no_roles()
    }
}

fn token_withdraw() -> (r: Roles)
    ensures
        r == token_withdraw_roles(),
        r.within(14),
{
    Roles {
        source: 0,
        dest: 1,
        vault: 2,
        record: 3,
        ledger: 4,
        fee: 12,
        token_program: 5,
        mint: 6,
        vault_token: 8,
        dest_token: 9,
        fee_token: 13,
        system_program: 11,
        ..unplaced()
    }
}

/// The accounts of this request are, in their order: the sender, the
/// recipient, the vault, the record, the ledger, the token program, the
/// mint, the rent sysvar, the token accounts of the recipient and of the
/// vault, the associated-token program, the system program, the fee sink
/// and its token account.
pub open spec fn token_cancel_roles() -> Roles {
    Roles {
        source: 0,
        dest: 1,
        vault: 2,
        record: 3,
        ledger: 4,
        fee: 12,
        token_program: 5,
        mint: 6,
        vault_token: 9,
        dest_token: 8,
        fee_token: 13,
        system_program: 11,
        ..no_roles()
    }
}

fn token_cancel() -> (r: Roles)
    ensures
        r == token_cancel_roles(),
        r.within(14),
{
    Roles {
        source: 0,
        dest: 1,
        vault: 2,
        record: 3,
        ledger: 4,
        fee: 12,
        token_program: 5,
        mint: 6,
        vault_token: 9,
        dest_token: 8,
        fee_token: 13,
        system_program: 11,
        ..unplaced()
    }
}

/// The accounts of this request are, in their order: the sender, the vault,
/// the system program.
pub open spec fn native_deposit_roles() -> Roles {
    Roles {
        source: 0,
        vault: 1,
        system_program: 2,
        ..no_roles()
    }
}

fn native_deposit() -> (r: Roles)
    ensures
        r == native_deposit_roles(),
        r.within(3),
{
    Roles {
        source: 0,
        vault: 1,
        system_program: 2,
        ..unplaced()
    }
}

/// The accounts of this request are, in their order: the sender, the vault,
/// the token program, the mint, the rent sysvar, the token accounts of the
/// sender and of the vault, the system program, the associated-token
/// program.
pub open spec fn token_deposit_roles() -> Roles {
    Roles {
        source: 0,
        vault: 1,
        token_program: 2,
        mint: 3,
        vault_token: 6,
        source_token: 5,
        system_program: 7,
        ..no_roles()
    }
}

fn token_deposit() -> (r: Roles)
    ensures
        r == token_deposit_roles(),
        r.within(9),
{
    Roles {
        source: 0,
        vault: 1,
        token_program: 2,
        mint: 3,
        vault_token: 6,
        source_token: 5,
        system_program: 7,
        ..unplaced()
    }
}

/// The accounts of this request are, in their order: the sender, the
/// record, the ledger.
pub open spec fn fund_roles() -> Roles {
    Roles {
        source: 0,
        record: 1,
        ledger: 2,
        ..no_roles()
    }
}

fn fund() -> (r: Roles)
    ensures
        r == fund_roles(),
        r.within(3),
{
    Roles {
        source: 0,
        record: 1,
        ledger: 2,
        ..unplaced()
    }
}

/// The accounts of this request are, in their order: the sender, the vault,
/// the ledger, the system program.
pub open spec fn native_vault_withdraw_roles() -> Roles {
    Roles {
        source: 0,
        vault: 1,
        ledger: 2,
        system_program: 3,
        ..no_roles()
    }
}

fn native_vault_withdraw() -> (r: Roles)
    ensures
        r == native_vault_withdraw_roles(),
        r.within(4),
{
    Roles {
        source: 0,
        vault: 1,
        ledger: 2,
        system_program: 3,
        ..unplaced()
    }
}

/// The accounts of this request are, in their order: the sender, the token
/// program, the mint, the sender's token account, the vault, the ledger,
/// the vault's token account, the system program.
pub open spec fn token_vault_withdraw_roles() -> Roles {
    Roles {
        source: 0,
        vault: 4,
        ledger: 5,
        token_program: 1,
        mint: 2,
        vault_token: 6,
        source_token: 3,
        system_program: 7,
        ..no_roles()
    }
}

fn token_vault_withdraw() -> (r: Roles)
    ensures
        r == token_vault_withdraw_roles(),
        r.within(8),
{
    Roles {
        source: 0,
        vault: 4,
        ledger: 5,
        token_program: 1,
        mint: 2,
        vault_token: 6,
        source_token: 3,
        system_program: 7,
        ..unplaced()
    }
}

/// The accounts of this request are, in their order: the payer, the group,
/// the system program, the ledger of the group's safe.
pub open spec fn group_create_roles() -> Roles {
    Roles {
        source: 0,
        ledger: 3,
        group: 1,
        system_program: 2,
        ..no_roles()
    }
}

fn group_create() -> (r: Roles)
    ensures
        r == group_create_roles(),
        r.within(4),
{
    Roles {
        source: 0,
        ledger: 3,
        group: 1,
        system_program: 2,
        ..unplaced()
    }
}

/// The accounts of this request are, in their order: the sender, the
/// recipient, the group, the record, the system program, the ledger of the
/// safe.
pub open spec fn multisig_native_create_roles() -> Roles {
    Roles {
        source: 0,
        dest: 1,
        record: 3,
        ledger: 5,
        group: 2,
        system_program: 4,
        ..no_roles()
    }
}

fn multisig_native_create() -> (r: Roles)
    ensures
        r == multisig_native_create_roles(),
        r.within(6),
{
    Roles {
        source: 0,
        dest: 1,
        record: 3,
        ledger: 5,
        group: 2,
        system_program: 4,
        ..unplaced()
    }
}

/// The accounts of this request are, in their order: the member, the
/// record, the group, the ledger, the system program.
pub open spec fn stream_sign_roles() -> Roles {
    Roles {
        source: 0,
        record: 1,
        ledger: 3,
        group: 2,
        system_program: 4,
        ..no_roles()
    }
}

fn stream_sign() -> (r: Roles)
    ensures
        r == stream_sign_roles(),
        r.within(5),
{
    Roles {
        source: 0,
        record: 1,
        ledger: 3,
        group: 2,
        system_program: 4,
        ..unplaced()
    }
}

/// The accounts of this request are, in their order: the member, the
/// record, the group, the ledger of the safe.
pub open spec fn native_reject_roles() -> Roles {
    Roles {
        source: 0,
        dest: 0,
        record: 1,
        ledger: 3,
        group: 2,
        ..no_roles()
    }
}

fn native_reject() -> (r: Roles)
    ensures
        r == native_reject_roles(),
        r.within(4),
{
    Roles {
        source: 0,
        dest: 0,
        record: 1,
        ledger: 3,
        group: 2,
        ..unplaced()
    }
}

/// The accounts of this request are, in their order: the sender, the vault,
/// the safe, the group, the ledger, the system program.
pub open spec fn native_swap_roles() -> Roles {
    Roles {
        source: 0,
        dest: 2,
        vault: 1,
        ledger: 4,
        group: 3,
        system_program: 5,
        ..no_roles()
    }
}

fn native_swap() -> (r: Roles)
    ensures
        r == native_swap_roles(),
        r.within(6),
{
    Roles {
        source: 0,
        dest: 2,
        vault: 1,
        ledger: 4,
        group: 3,
        system_program: 5,
        ..unplaced()
    }
}

/// The accounts of this request are, in their order: the sender, the safe,
/// the group, the token program, the mint, the sender's token account, the
/// vault, the ledger, the token accounts of the safe and of the vault, the
/// rent sysvar, the associated-token program, the system program.
pub open spec fn token_swap_roles() -> Roles {
    Roles {
        source: 0,
        dest: 1,
        vault: 6,
        ledger: 7,
        group: 2,
        token_program: 3,
        mint: 4,
        vault_token: 9,
        dest_token: 8,
        source_token: 5,
        system_program: 12,
        ..no_roles()
    }
}

fn token_swap() -> (r: Roles)
    ensures
        r == token_swap_roles(),
        r.within(13),
{
    Roles {
        source: 0,
        dest: 1,
        vault: 6,
        ledger: 7,
        group: 2,
        token_program: 3,
        mint: 4,
        vault_token: 9,
        dest_token: 8,
        source_token: 5,
        system_program: 12,
        ..unplaced()
    }
}

/// The accounts of this request are, in their order: the member, the
/// recipient, the group, the proposal, the system program.
pub open spec fn native_propose_roles() -> Roles {
    Roles {
        source: 0,
        dest: 1,
        record: 3,
        group: 2,
        system_program: 4,
        ..no_roles()
    }
}

fn native_propose() -> (r: Roles)
    ensures
        r == native_propose_roles(),
        r.within(5),
{
    Roles {
        source: 0,
        dest: 1,
        record: 3,
        group: 2,
        system_program: 4,
        ..unplaced()
    }
}

/// The accounts of this request are, in their order: the member, the
/// recipient, the safe, the group, the proposal, the system program.
pub open spec fn native_proposal_sign_roles() -> Roles {
    Roles {
        source: 0,
        dest: 1,
        vault: 2,
        record: 4,
        group: 3,
        system_program: 5,
        ..no_roles()
    }
}

fn native_proposal_sign() -> (r: Roles)
    ensures
        r == native_proposal_sign_roles(),
        r.within(6),
{
    Roles {
        source: 0,
        dest: 1,
        vault: 2,
        record: 4,
        group: 3,
        system_program: 5,
        ..unplaced()
    }
}

/// The accounts of this request are, in their order: the member, the group,
/// the proposal.
pub open spec fn proposal_reject_roles() -> Roles {
    Roles {
        source: 0,
        record: 2,
        group: 1,
        ..no_roles()
    }
}

fn proposal_reject() -> (r: Roles)
    ensures
        r == proposal_reject_roles(),
        r.within(3),
{
    Roles {
        source: 0,
        record: 2,
        group: 1,
        ..unplaced()
    }
}

/// The accounts of this request are, in their order: the sender, the
/// recipient, the safe, the record, the group, the ledger, the system
/// program, the fee sink.
pub open spec fn multisig_native_release_roles() -> Roles {
    Roles {
        source: 0,
        dest: 1,
        vault: 2,
        record: 3,
        ledger: 5,
        fee: 7,
        group: 4,
        system_program: 6,
        ..no_roles()
    }
}

fn multisig_native_release() -> (r: Roles)
    ensures
        r == multisig_native_release_roles(),
        r.within(8),
{
    Roles {
        source: 0,
        dest: 1,
        vault: 2,
        record: 3,
        ledger: 5,
        fee: 7,
        group: 4,
        system_program: 6,
        ..unplaced()
    }
}

/// The accounts of this request are, in their order: the member, the
/// recipient, the record, the group.
pub open spec fn multisig_parties_roles() -> Roles {
    Roles {
        source: 0,
        dest: 1,
        record: 2,
        group: 3,
        ..no_roles()
    }
}

fn multisig_parties() -> (r: Roles)
    ensures
        r == multisig_parties_roles(),
        r.within(4),
{
    Roles {
        source: 0,
        dest: 1,
        record: 2,
        group: 3,
        ..unplaced()
    }
}

/// The accounts of this request are, in their order: the sender, the
/// recipient, the record, the group, the token program, the system program,
/// the mint, the ledger of the safe.
pub open spec fn multisig_token_create_roles() -> Roles {
    Roles {
        source: 0,
        dest: 1,
        record: 2,
        ledger: 7,
        group: 3,
        token_program: 4,
        mint: 6,
        system_program: 5,
        ..no_roles()
    }
}

fn multisig_token_create() -> (r: Roles)
    ensures
        r == multisig_token_create_roles(),
        r.within(8),
{
    Roles {
        source: 0,
        dest: 1,
        record: 2,
        ledger: 7,
        group: 3,
        token_program: 4,
        mint: 6,
        system_program: 5,
        ..unplaced()
    }
}

/// The accounts of this request are, in their order: the member, the
/// stream's initiator, the record, the group, the ledger of the safe.
pub open spec fn token_reject_roles() -> Roles {
    Roles {
        source: 0,
        dest: 1,
        record: 2,
        ledger: 4,
        group: 3,
        ..no_roles()
    }
}

fn token_reject() -> (r: Roles)
    ensures
        r == token_reject_roles(),
        r.within(5),
{
    Roles {
        source: 0,
        dest: 1,
        record: 2,
        ledger: 4,
        group: 3,
        ..unplaced()
    }
}

/// The accounts of this request are, in their order: the sender, the
/// recipient, the safe, the group, the record, the ledger, the token
/// program, the mint, the rent sysvar, the token accounts of the safe and
/// of the recipient, the associated-token program, the system program, the
/// fee sink and its token account.
pub open spec fn multisig_token_withdraw_roles() -> Roles {
    Roles {
        source: 0,
        dest: 1,
        vault: 2,
        record: 4,
        ledger: 5,
        fee: 13,
        group: 3,
        token_program: 6,
        mint: 7,
        vault_token: 9,
        dest_token: 10,
        fee_token: 14,
        system_program: 12,
        ..no_roles()
    }
}

fn multisig_token_withdraw() -> (r: Roles)
    ensures
        r == multisig_token_withdraw_roles(),
        r.within(15),
{
    Roles {
        source: 0,
        dest: 1,
        vault: 2,
        record: 4,
        ledger: 5,
        fee: 13,
        group: 3,
        token_program: 6,
        mint: 7,
        vault_token: 9,
        dest_token: 10,
        fee_token: 14,
        system_program: 12,
        ..unplaced()
    }
}

/// The accounts of this request are, in their order: the sender, the
/// recipient, the safe, the record, the group, the ledger, the token
/// program, the mint, the rent sysvar, the token accounts of the recipient
/// and of the safe, the associated-token program, the system program, the
/// fee sink and its token account.
pub open spec fn multisig_token_cancel_roles() -> Roles {
    Roles {
        source: 0,
        dest: 1,
        vault: 2,
        record: 3,
        ledger: 5,
        fee: 13,
        group: 4,
        token_program: 6,
        mint: 7,
        vault_token: 10,
        dest_token: 9,
        fee_token: 14,
        system_program: 12,
        ..no_roles()
    }
}

fn multisig_token_cancel() -> (r: Roles)
    ensures
        r == multisig_token_cancel_roles(),
        r.within(15),
{
    Roles {
        source: 0,
        dest: 1,
        vault: 2,
        record: 3,
        ledger: 5,
        fee: 13,
        group: 4,
        token_program: 6,
        mint: 7,
        vault_token: 10,
        dest_token: 9,
        fee_token: 14,
        system_program: 12,
        ..unplaced()
    }
}

/// The accounts of this request are, in their order: the member, the
/// recipient, the group, the proposal, the mint, the system program.
pub open spec fn token_propose_roles() -> Roles {
    Roles {
        source: 0,
        dest: 1,
        record: 3,
        group: 2,
        mint: 4,
        system_program: 5,
        ..no_roles()
    }
}

fn token_propose() -> (r: Roles)
    ensures
        r == token_propose_roles(),
        r.within(6),
{
    Roles {
        source: 0,
        dest: 1,
        record: 3,
        group: 2,
        mint: 4,
        system_program: 5,
        ..unplaced()
    }
}

/// The accounts of this request are, in their order: the member, the
/// recipient, the safe, the group, the proposal, the token program, the
/// mint, the rent sysvar, the token accounts of the safe and of the
/// recipient, the associated-token program, the system program.
pub open spec fn token_proposal_sign_roles() -> Roles {
    Roles {
        source: 0,
        dest: 1,
        vault: 2,
        record: 4,
        group: 3,
        token_program: 5,
        mint: 6,
        vault_token: 8,
        dest_token: 9,
        system_program: 11,
        ..no_roles()
    }
}

fn token_proposal_sign() -> (r: Roles)
    ensures
        r == token_proposal_sign_roles(),
        r.within(12),
{
    Roles {
        source: 0,
        dest: 1,
        vault: 2,
        record: 4,
        group: 3,
        token_program: 5,
        mint: 6,
        vault_token: 8,
        dest_token: 9,
        system_program: 11,
        ..unplaced()
    }
}

/// The program's request handlers.
pub struct Processor {}

impl Processor {
    /// Creates a native stream.
    pub fn process_sol_stream(
        program_id: &Pubkey,
        accounts: &[AccountInfo],
        start_time: u64,
        end_time: u64,
        amount: u64,
        ctx: &Context,
    ) -> (r: Result<Vec<Action>, ProgramError>)
        ensures
            outcome_is(
                r,
                routed(
                    accounts@,
                    5,
                    open_spec(
                        *program_id,
                        accounts@,
                        native_create_roles(),
                        Layout { token: false, multisig: false, current: true },
                        start_time,
                        end_time,
                        amount,
                        Seq::empty(),
                        false,
                        *ctx,
                    ),
                ),
            ),
    {
        if accounts.len() < 5 {
            return Err(ProgramError::NotEnoughAccountKeys);
        }
        crate::stream::open(
            program_id,
            accounts,
            &native_create(),
            Layout { token: false, multisig: false, current: true },
            start_time,
            end_time,
            amount,
            Vec::new(),
            false,
            ctx,
        )
    }

    /// Withdraws from a native stream whose record is of the legacy layout.
    pub fn process_sol_withdraw_stream_deprecated(
        program_id: &Pubkey,
        accounts: &[AccountInfo],
        amount: u64,
        ctx: &Context,
    ) -> (r: Result<Vec<Action>, ProgramError>)
        ensures
            outcome_is(
                r,
                routed(
                    accounts@,
                    7,
                    withdraw_spec(
                        *program_id,
                        accounts@,
                        native_release_roles(),
                        Layout { token: false, multisig: false, current: false },
                        amount,
                        *ctx,
                    ),
                ),
            ),
    {
        if accounts.len() < 7 {
            return Err(ProgramError::NotEnoughAccountKeys);
        }
        crate::stream::withdraw(
            program_id,
            accounts,
            &native_release(),
            Layout { token: false, multisig: false, current: false },
            amount,
            ctx,
        )
    }

    /// Withdraws from a native stream.
    pub fn process_sol_withdraw_stream(
        program_id: &Pubkey,
        accounts: &[AccountInfo],
        amount: u64,
        ctx: &Context,
    ) -> (r: Result<Vec<Action>, ProgramError>)
        ensures
            outcome_is(
                r,
                routed(
                    accounts@,
                    7,
                    withdraw_spec(
                        *program_id,
                        accounts@,
                        native_release_roles(),
                        Layout { token: false, multisig: false, current: true },
                        amount,
                        *ctx,
                    ),
                ),
            ),
    {
        if accounts.len() < 7 {
            return Err(ProgramError::NotEnoughAccountKeys);
        }
        crate::stream::withdraw(
            program_id,
            accounts,
            &native_release(),
            Layout { token: false, multisig: false, current: true },
            amount,
            ctx,
        )
    }

    /// Cancels a native stream.
    pub fn process_cancel_sol_stream(
        program_id: &Pubkey,
        accounts: &[AccountInfo],
        ctx: &Context,
    ) -> (r: Result<Vec<Action>, ProgramError>)
        ensures
            outcome_is(
                r,
                routed(
                    accounts@,
                    7,
                    cancel_spec(
                        *program_id,
                        accounts@,
                        native_release_roles(),
                        Layout { token: false, multisig: false, current: true },
                        *ctx,
                    ),
                ),
            ),
    {
        if accounts.len() < 7 {
            return Err(ProgramError::NotEnoughAccountKeys);
        }
        crate::stream::cancel(
            program_id,
            accounts,
            &native_release(),
            Layout { token: false, multisig: false, current: true },
            ctx,
        )
    }

    /// Pauses a native stream.
    pub fn process_pause_sol_stream(
        program_id: &Pubkey,
        accounts: &[AccountInfo],
        ctx: &Context,
    ) -> (r: Result<Vec<Action>, ProgramError>)
        ensures
            outcome_is(
                r,
                routed(
                    accounts@,
                    3,
                    pause_spec(
                        *program_id,
                        accounts@,
                        parties_roles(),
                        Layout { token: false, multisig: false, current: true },
                        *ctx,
                    ),
                ),
            ),
    {
        if accounts.len() < 3 {
            return Err(ProgramError::NotEnoughAccountKeys);
        }
        crate::stream::pause(
            program_id,
            accounts,
            &parties(),
            Layout { token: false, multisig: false, current: true },
            ctx,
        )
    }

    /// Resumes a native stream.
    pub fn process_resume_sol_stream(
        program_id: &Pubkey,
        accounts: &[AccountInfo],
        ctx: &Context,
    ) -> (r: Result<Vec<Action>, ProgramError>)
        ensures
            outcome_is(
                r,
                routed(
                    accounts@,
                    3,
                    resume_spec(
                        *program_id,
                        accounts@,
                        parties_roles(),
                        Layout { token: false, multisig: false, current: true },
                        *ctx,
                    ),
                ),
            ),
    {
        if accounts.len() < 3 {
            return Err(ProgramError::NotEnoughAccountKeys);
        }
        crate::stream::resume(
            program_id,
            accounts,
            &parties(),
            Layout { token: false, multisig: false, current: true },
            ctx,
        )
    }

    /// Creates a token stream.
    pub fn process_token_stream(
        program_id: &Pubkey,
        accounts: &[AccountInfo],
        start_time: u64,
        end_time: u64,
        amount: u64,
        ctx: &Context,
    ) -> (r: Result<Vec<Action>, ProgramError>)
        ensures
            outcome_is(
                r,
                routed(
                    accounts@,
                    7,
                    open_spec(
                        *program_id,
                        accounts@,
                        token_create_roles(),
                        Layout { token: true, multisig: false, current: true },
                        start_time,
                        end_time,
                        amount,
                        Seq::empty(),
                        false,
                        *ctx,
                    ),
                ),
            ),
    {
        if accounts.len() < 7 {
            return Err(ProgramError::NotEnoughAccountKeys);
        }
        crate::stream::open(
            program_id,
            accounts,
            &token_create(),
            Layout { token: true, multisig: false, current: true },
            start_time,
            end_time,
            amount,
            Vec::new(),
            false,
            ctx,
        )
    }

    /// Withdraws from a token stream whose record is of the legacy layout.
    pub fn process_token_withdraw_stream_deprecated(
        program_id: &Pubkey,
        accounts: &[AccountInfo],
        amount: u64,
        ctx: &Context,
    ) -> (r: Result<Vec<Action>, ProgramError>)
        ensures
            outcome_is(
                r,
                routed(
                    accounts@,
                    14,
                    withdraw_spec(
                        *program_id,
                        accounts@,
                        token_withdraw_roles(),
                        Layout { token: true, multisig: false, current: false },
                        amount,
                        *ctx,
                    ),
                ),
            ),
    {
        if accounts.len() < 14 {
            return Err(ProgramError::NotEnoughAccountKeys);
        }
        crate::stream::withdraw(
            program_id,
            accounts,
            &token_withdraw(),
            Layout { token: true, multisig: false, current: false },
            amount,
            ctx,
        )
    }

    /// Withdraws from a token stream.
    pub fn process_token_withdraw_stream(
        program_id: &Pubkey,
        accounts: &[AccountInfo],
        amount: u64,
        ctx: &Context,
    ) -> (r: Result<Vec<Action>, ProgramError>)
        ensures
            outcome_is(
                r,
                routed(
                    accounts@,
                    14,
                    withdraw_spec(
                        *program_id,
                        accounts@,
                        token_withdraw_roles(),
                        Layout { token: true, multisig: false, current: true },
                        amount,
                        *ctx,
                    ),
                ),
            ),
    {
        if accounts.len() < 14 {
            return Err(ProgramError::NotEnoughAccountKeys);
        }
        crate::stream::withdraw(
            program_id,
            accounts,
            &token_withdraw(),
            Layout { token: true, multisig: false, current: true },
            amount,
            ctx,
        )
    }

    /// Cancels a token stream.
    pub fn process_token_cancel_stream(
        program_id: &Pubkey,
        accounts: &[AccountInfo],
        ctx: &Context,
    ) -> (r: Result<Vec<Action>, ProgramError>)
        ensures
            outcome_is(
                r,
                routed(
                    accounts@,
                    14,
                    cancel_spec(
                        *program_id,
                        accounts@,
                        token_cancel_roles(),
                        Layout { token: true, multisig: false, current: true },
                        *ctx,
                    ),
                ),
            ),
    {
        if accounts.len() < 14 {
            return Err(ProgramError::NotEnoughAccountKeys);
        }
        crate::stream::cancel(
            program_id,
            accounts,
            &token_cancel(),
            Layout { token: true, multisig: false, current: true },
            ctx,
        )
    }

    /// Pauses a token stream.
    pub fn process_pause_token_stream(
        program_id: &Pubkey,
        accounts: &[AccountInfo],
        ctx: &Context,
    ) -> (r: Result<Vec<Action>, ProgramError>)
        ensures
            outcome_is(
                r,
                routed(
                    accounts@,
                    3,
                    pause_spec(
                        *program_id,
                        accounts@,
                        parties_roles(),
                        Layout { token: true, multisig: false, current: true },
                        *ctx,
                    ),
                ),
            ),
    {
        if accounts.len() < 3 {
            return Err(ProgramError::NotEnoughAccountKeys);
        }
        crate::stream::pause(
            program_id,
            accounts,
            &parties(),
            Layout { token: true, multisig: false, current: true },
            ctx,
        )
    }

    /// Resumes a token stream.
    pub fn process_resume_token_stream(
        program_id: &Pubkey,
        accounts: &[AccountInfo],
        ctx: &Context,
    ) -> (r: Result<Vec<Action>, ProgramError>)
        ensures
            outcome_is(
                r,
                routed(
                    accounts@,
                    3,
                    resume_spec(
                        *program_id,
                        accounts@,
                        parties_roles(),
                        Layout { token: true, multisig: false, current: true },
                        *ctx,
                    ),
                ),
            ),
    {
        if accounts.len() < 3 {
            return Err(ProgramError::NotEnoughAccountKeys);
        }
        crate::stream::resume(
            program_id,
            accounts,
            &parties(),
            Layout { token: true, multisig: false, current: true },
            ctx,
        )
    }

    /// Deposits lamports into the vault of the sender.
    pub fn process_deposit_sol(
        program_id: &Pubkey,
        accounts: &[AccountInfo],
        amount: u64,
    ) -> (r: Result<Vec<Action>, ProgramError>)
        ensures
            outcome_is(
                r,
                routed(
                    accounts@,
                    3,
                    deposit_spec(*program_id, accounts@, native_deposit_roles(), false, amount),
                ),
            ),
    {
        if accounts.len() < 3 {
            return Err(ProgramError::NotEnoughAccountKeys);
        }
        crate::vault::deposit(program_id, accounts, &native_deposit(), false, amount)
    }

    /// Deposits tokens into the vault of the sender.
    pub fn process_deposit_token(
        program_id: &Pubkey,
        accounts: &[AccountInfo],
        amount: u64,
    ) -> (r: Result<Vec<Action>, ProgramError>)
        ensures
            outcome_is(
                r,
                routed(
                    accounts@,
                    9,
                    deposit_spec(*program_id, accounts@, token_deposit_roles(), true, amount),
                ),
            ),
    {
        if accounts.len() < 9 {
            return Err(ProgramError::NotEnoughAccountKeys);
        }
        crate::vault::deposit(program_id, accounts, &token_deposit(), true, amount)
    }

    /// Tops a native stream up.
    pub fn process_fund_sol(
        program_id: &Pubkey,
        accounts: &[AccountInfo],
        end_time: u64,
        amount: u64,
    ) -> (r: Result<Vec<Action>, ProgramError>)
        ensures
            outcome_is(
                r,
                routed(
                    accounts@,
                    3,
                    fund_spec(
                        *program_id,
                        accounts@,
                        fund_roles(),
                        Layout { token: false, multisig: false, current: true },
                        end_time,
                        amount,
                    ),
                ),
            ),
    {
        if accounts.len() < 3 {
            return Err(ProgramError::NotEnoughAccountKeys);
        }
        crate::stream::fund(
            program_id,
            accounts,
            &fund(),
            Layout { token: false, multisig: false, current: true },
            end_time,
            amount,
        )
    }

    /// Tops a token stream up.
    pub fn process_fund_token(
        program_id: &Pubkey,
        accounts: &[AccountInfo],
        end_time: u64,
        amount: u64,
    ) -> (r: Result<Vec<Action>, ProgramError>)
        ensures
            outcome_is(
                r,
                routed(
                    accounts@,
                    3,
                    fund_spec(
                        *program_id,
                        accounts@,
                        fund_roles(),
                        Layout { token: true, multisig: false, current: true },
                        end_time,
                        amount,
                    ),
                ),
            ),
    {
        if accounts.len() < 3 {
            return Err(ProgramError::NotEnoughAccountKeys);
        }
        crate::stream::fund(
            program_id,
            accounts,
            &fund(),
            Layout { token: true, multisig: false, current: true },
            end_time,
            amount,
        )
    }

    /// Withdraws unreserved lamports out of the vault to the sender.
    pub fn process_withdraw_sol(
        program_id: &Pubkey,
        accounts: &[AccountInfo],
        amount: u64,
    ) -> (r: Result<Vec<Action>, ProgramError>)
        ensures
            outcome_is(
                r,
                routed(
                    accounts@,
                    4,
                    vault_withdraw_spec(
                        *program_id,
                        accounts@,
                        native_vault_withdraw_roles(),
                        false,
                        false,
                        amount,
                    ),
                ),
            ),
    {
        if accounts.len() < 4 {
            return Err(ProgramError::NotEnoughAccountKeys);
        }
        crate::vault::vault_withdraw(
            program_id,
            accounts,
            &native_vault_withdraw(),
            false,
            false,
            amount,
        )
    }

    /// Withdraws unreserved tokens out of the vault to the sender.
    pub fn process_withdraw_token(
        program_id: &Pubkey,
        accounts: &[AccountInfo],
        amount: u64,
    ) -> (r: Result<Vec<Action>, ProgramError>)
        ensures
            outcome_is(
                r,
                routed(
                    accounts@,
                    8,
                    vault_withdraw_spec(
                        *program_id,
                        accounts@,
                        token_vault_withdraw_roles(),
                        true,
                        false,
                        amount,
                    ),
                ),
            ),
    {
        if accounts.len() < 8 {
            return Err(ProgramError::NotEnoughAccountKeys);
        }
        crate::vault::vault_withdraw(
            program_id,
            accounts,
            &token_vault_withdraw(),
            true,
            false,
            amount,
        )
    }

    /// Creates a multisig group.
    pub fn process_create_multisig(
        program_id: &Pubkey,
        accounts: &[AccountInfo],
        signers: Multisig,
    ) -> (r: Result<Vec<Action>, ProgramError>)
        ensures
            outcome_is(
                r,
                routed(
                    accounts@,
                    4,
                    create_multisig_spec(
                        *program_id,
                        accounts@,
                        group_create_roles(),
                        signers.signers@,
                        signers.m,
                    ),
                ),
            ),
    {
        if accounts.len() < 4 {
            return Err(ProgramError::NotEnoughAccountKeys);
        }
        crate::multisig::create_multisig(
            program_id,
            accounts,
            &group_create(),
            signers.signers,
            signers.m,
        )
    }

    /// Creates a native multisig stream, which waits for its approvals.
    pub fn process_sol_stream_multisig(
        program_id: &Pubkey,
        accounts: &[AccountInfo],
        data: EscrowMultisig,
        ctx: &Context,
    ) -> (r: Result<Vec<Action>, ProgramError>)
        ensures
            outcome_is(
                r,
                routed(
                    accounts@,
                    6,
                    open_spec(
                        *program_id,
                        accounts@,
                        multisig_native_create_roles(),
                        Layout { token: false, multisig: true, current: true },
                        data.start_time,
                        data.end_time,
                        data.amount,
                        data.signed_by@,
                        data.can_cancel,
                        *ctx,
                    ),
                ),
            ),
    {
        if accounts.len() < 6 {
            return Err(ProgramError::NotEnoughAccountKeys);
        }
        crate::stream::open(
            program_id,
            accounts,
            &multisig_native_create(),
            Layout { token: false, multisig: true, current: true },
            data.start_time,
            data.end_time,
            data.amount,
            data.signed_by,
            data.can_cancel,
            ctx,
        )
    }

    /// Approves a native multisig stream.
    pub fn process_sign_stream(
        program_id: &Pubkey,
        accounts: &[AccountInfo],
        ctx: &Context,
    ) -> (r: Result<Vec<Action>, ProgramError>)
        ensures
            outcome_is(
                r,
                routed(
                    accounts@,
                    5,
                    sign_spec(
                        *program_id,
                        accounts@,
                        stream_sign_roles(),
                        Layout { token: false, multisig: true, current: true },
                        *ctx,
                    ),
                ),
            ),
    {
        if accounts.len() < 5 {
            return Err(ProgramError::NotEnoughAccountKeys);
        }
        crate::multisig::sign(
            program_id,
            accounts,
            &stream_sign(),
            Layout { token: false, multisig: true, current: true },
            ctx,
        )
    }

    /// Rejects a native multisig stream that has not started.
    pub fn process_reject_sol_stream_multisig(
        program_id: &Pubkey,
        accounts: &[AccountInfo],
        ctx: &Context,
    ) -> (r: Result<Vec<Action>, ProgramError>)
        ensures
            outcome_is(
                r,
                routed(
                    accounts@,
                    4,
                    reject_spec(
                        *program_id,
                        accounts@,
                        native_reject_roles(),
                        Layout { token: false, multisig: true, current: true },
                        *ctx,
                    ),
                ),
            ),
    {
        if accounts.len() < 4 {
            return Err(ProgramError::NotEnoughAccountKeys);
        }
        crate::multisig::reject(
            program_id,
            accounts,
            &native_reject(),
            Layout { token: false, multisig: true, current: true },
            ctx,
        )
    }

    /// Moves unreserved lamports out of the vault into a multisig safe.
    pub fn process_swap_sol(
        program_id: &Pubkey,
        accounts: &[AccountInfo],
        amount: u64,
    ) -> (r: Result<Vec<Action>, ProgramError>)
        ensures
            outcome_is(
                r,
                routed(
                    accounts@,
                    6,
                    vault_withdraw_spec(
                        *program_id,
                        accounts@,
                        native_swap_roles(),
                        false,
                        true,
                        amount,
                    ),
                ),
            ),
    {
        if accounts.len() < 6 {
            return Err(ProgramError::NotEnoughAccountKeys);
        }
        crate::vault::vault_withdraw(program_id, accounts, &native_swap(), false, true, amount)
    }

    /// Moves unreserved tokens out of the vault into a multisig safe.
    pub fn process_swap_token(
        program_id: &Pubkey,
        accounts: &[AccountInfo],
        amount: u64,
    ) -> (r: Result<Vec<Action>, ProgramError>)
        ensures
            outcome_is(
                r,
                routed(
                    accounts@,
                    13,
                    vault_withdraw_spec(
                        *program_id,
                        accounts@,
                        token_swap_roles(),
                        true,
                        true,
                        amount,
                    ),
                ),
            ),
    {
        if accounts.len() < 13 {
            return Err(ProgramError::NotEnoughAccountKeys);
        }
        crate::vault::vault_withdraw(program_id, accounts, &token_swap(), true, true, amount)
    }

    /// Proposes a transfer of lamports out of a multisig safe.
    pub fn process_transfer_sol_multisig(
        program_id: &Pubkey,
        accounts: &[AccountInfo],
        data: SolTransfer,
    ) -> (r: Result<Vec<Action>, ProgramError>)
        ensures
            outcome_is(
                r,
                routed(
                    accounts@,
                    5,
                    propose_spec(
                        *program_id,
                        accounts@,
                        native_propose_roles(),
                        false,
                        data.amount,
                        data.signed_by@,
                    ),
                ),
            ),
    {
        if accounts.len() < 5 {
            return Err(ProgramError::NotEnoughAccountKeys);
        }
        crate::multisig::propose(
            program_id,
            accounts,
            &native_propose(),
            false,
            data.amount,
            data.signed_by,
        )
    }

    /// Approves a proposed transfer of lamports.
    pub fn process_transfer_sol_sign_multisig(
        program_id: &Pubkey,
        accounts: &[AccountInfo],
    ) -> (r: Result<Vec<Action>, ProgramError>)
        ensures
            outcome_is(
                r,
                routed(
                    accounts@,
                    6,
                    sign_transfer_spec(*program_id, accounts@, native_proposal_sign_roles(), false),
                ),
            ),
    {
        if accounts.len() < 6 {
            return Err(ProgramError::NotEnoughAccountKeys);
        }
        crate::multisig::sign_transfer(program_id, accounts, &native_proposal_sign(), false)
    }

    /// Rejects a proposed transfer of lamports.
    pub fn process_transfer_sol_reject_multisig(
        program_id: &Pubkey,
        accounts: &[AccountInfo],
    ) -> (r: Result<Vec<Action>, ProgramError>)
        ensures
            outcome_is(
                r,
                routed(
                    accounts@,
                    3,
                    reject_transfer_spec(*program_id, accounts@, proposal_reject_roles(), false),
                ),
            ),
    {
        if accounts.len() < 3 {
            return Err(ProgramError::NotEnoughAccountKeys);
        }
        crate::multisig::reject_transfer(program_id, accounts, &proposal_reject(), false)
    }

    /// Withdraws from a native multisig stream whose record is of the legacy layout.
    pub fn process_sol_withdraw_stream_multisig_deprecated(
        program_id: &Pubkey,
        accounts: &[AccountInfo],
        amount: u64,
        ctx: &Context,
    ) -> (r: Result<Vec<Action>, ProgramError>)
        ensures
            outcome_is(
                r,
                routed(
                    accounts@,
                    8,
                    withdraw_spec(
                        *program_id,
                        accounts@,
                        multisig_native_release_roles(),
                        Layout { token: false, multisig: true, current: false },
                        amount,
                        *ctx,
                    ),
                ),
            ),
    {
        if accounts.len() < 8 {
            return Err(ProgramError::NotEnoughAccountKeys);
        }
        crate::stream::withdraw(
            program_id,
            accounts,
            &multisig_native_release(),
            Layout { token: false, multisig: true, current: false },
            amount,
            ctx,
        )
    }

    /// Withdraws from a native multisig stream.
    pub fn process_sol_withdraw_stream_multisig(
        program_id: &Pubkey,
        accounts: &[AccountInfo],
        amount: u64,
        ctx: &Context,
    ) -> (r: Result<Vec<Action>, ProgramError>)
        ensures
            outcome_is(
                r,
                routed(
                    accounts@,
                    8,
                    withdraw_spec(
                        *program_id,
                        accounts@,
                        multisig_native_release_roles(),
                        Layout { token: false, multisig: true, current: true },
                        amount,
                        *ctx,
                    ),
                ),
            ),
    {
        if accounts.len() < 8 {
            return Err(ProgramError::NotEnoughAccountKeys);
        }
        crate::stream::withdraw(
            program_id,
            accounts,
            &multisig_native_release(),
            Layout { token: false, multisig: true, current: true },
            amount,
            ctx,
        )
    }

    /// Cancels a native multisig stream.
    pub fn process_cancel_sol_stream_multisig(
        program_id: &Pubkey,
        accounts: &[AccountInfo],
        ctx: &Context,
    ) -> (r: Result<Vec<Action>, ProgramError>)
        ensures
            outcome_is(
                r,
                routed(
                    accounts@,
                    8,
                    cancel_spec(
                        *program_id,
                        accounts@,
                        multisig_native_release_roles(),
                        Layout { token: false, multisig: true, current: true },
                        *ctx,
                    ),
                ),
            ),
    {
        if accounts.len() < 8 {
            return Err(ProgramError::NotEnoughAccountKeys);
        }
        crate::stream::cancel(
            program_id,
            accounts,
            &multisig_native_release(),
            Layout { token: false, multisig: true, current: true },
            ctx,
        )
    }

    /// Pauses a native multisig stream.
    pub fn process_pause_sol_stream_multisig(
        program_id: &Pubkey,
        accounts: &[AccountInfo],
        ctx: &Context,
    ) -> (r: Result<Vec<Action>, ProgramError>)
        ensures
            outcome_is(
                r,
                routed(
                    accounts@,
                    4,
                    pause_spec(
                        *program_id,
                        accounts@,
                        multisig_parties_roles(),
                        Layout { token: false, multisig: true, current: true },
                        *ctx,
                    ),
                ),
            ),
    {
        if accounts.len() < 4 {
            return Err(ProgramError::NotEnoughAccountKeys);
        }
        crate::stream::pause(
            program_id,
            accounts,
            &multisig_parties(),
            Layout { token: false, multisig: true, current: true },
            ctx,
        )
    }

    /// Resumes a native multisig stream.
    pub fn process_resume_sol_stream_multisig(
        program_id: &Pubkey,
        accounts: &[AccountInfo],
        ctx: &Context,
    ) -> (r: Result<Vec<Action>, ProgramError>)
        ensures
            outcome_is(
                r,
                routed(
                    accounts@,
                    4,
                    resume_spec(
                        *program_id,
                        accounts@,
                        multisig_parties_roles(),
                        Layout { token: false, multisig: true, current: true },
                        *ctx,
                    ),
                ),
            ),
    {
        if accounts.len() < 4 {
            return Err(ProgramError::NotEnoughAccountKeys);
        }
        crate::stream::resume(
            program_id,
            accounts,
            &multisig_parties(),
            Layout { token: false, multisig: true, current: true },
            ctx,
        )
    }

    /// Creates a token multisig stream, which waits for its approvals.
    pub fn process_token_multisig_stream(
        program_id: &Pubkey,
        accounts: &[AccountInfo],
        data: TokenEscrowMultisig,
        ctx: &Context,
    ) -> (r: Result<Vec<Action>, ProgramError>)
        ensures
            outcome_is(
                r,
                routed(
                    accounts@,
                    8,
                    open_spec(
                        *program_id,
                        accounts@,
                        multisig_token_create_roles(),
                        Layout { token: true, multisig: true, current: true },
                        data.start_time,
                        data.end_time,
                        data.amount,
                        data.signed_by@,
                        data.can_cancel,
                        *ctx,
                    ),
                ),
            ),
    {
        if accounts.len() < 8 {
            return Err(ProgramError::NotEnoughAccountKeys);
        }
        crate::stream::open(
            program_id,
            accounts,
            &multisig_token_create(),
            Layout { token: true, multisig: true, current: true },
            data.start_time,
            data.end_time,
            data.amount,
            data.signed_by,
            data.can_cancel,
            ctx,
        )
    }

    /// Approves a token multisig stream.
    pub fn process_sign_token_stream(
        program_id: &Pubkey,
        accounts: &[AccountInfo],
        ctx: &Context,
    ) -> (r: Result<Vec<Action>, ProgramError>)
        ensures
            outcome_is(
                r,
                routed(
                    accounts@,
                    5,
                    sign_spec(
                        *program_id,
                        accounts@,
                        stream_sign_roles(),
                        Layout { token: true, multisig: true, current: true },
                        *ctx,
                    ),
                ),
            ),
    {
        if accounts.len() < 5 {
            return Err(ProgramError::NotEnoughAccountKeys);
        }
        crate::multisig::sign(
            program_id,
            accounts,
            &stream_sign(),
            Layout { token: true, multisig: true, current: true },
            ctx,
        )
    }

    /// Rejects a token multisig stream that has not started.
    pub fn process_reject_token_stream_multisig(
        program_id: &Pubkey,
        accounts: &[AccountInfo],
        ctx: &Context,
    ) -> (r: Result<Vec<Action>, ProgramError>)
        ensures
            outcome_is(
                r,
                routed(
                    accounts@,
                    5,
                    reject_spec(
                        *program_id,
                        accounts@,
                        token_reject_roles(),
                        Layout { token: true, multisig: true, current: true },
                        *ctx,
                    ),
                ),
            ),
    {
        if accounts.len() < 5 {
            return Err(ProgramError::NotEnoughAccountKeys);
        }
        crate::multisig::reject(
            program_id,
            accounts,
            &token_reject(),
            Layout { token: true, multisig: true, current: true },
            ctx,
        )
    }

    /// Withdraws from a token multisig stream whose record is of the legacy layout.
    pub fn process_token_withdraw_multisig_stream_deprecated(
        program_id: &Pubkey,
        accounts: &[AccountInfo],
        amount: u64,
        ctx: &Context,
    ) -> (r: Result<Vec<Action>, ProgramError>)
        ensures
            outcome_is(
                r,
                routed(
                    accounts@,
                    15,
                    withdraw_spec(
                        *program_id,
                        accounts@,
                        multisig_token_withdraw_roles(),
                        Layout { token: true, multisig: true, current: false },
                        amount,
                        *ctx,
                    ),
                ),
            ),
    {
        if accounts.len() < 15 {
            return Err(ProgramError::NotEnoughAccountKeys);
        }
        crate::stream::withdraw(
            program_id,
            accounts,
            &multisig_token_withdraw(),
            Layout { token: true, multisig: true, current: false },
            amount,
            ctx,
        )
    }

    /// Withdraws from a token multisig stream.
    pub fn process_token_withdraw_multisig_stream(
        program_id: &Pubkey,
        accounts: &[AccountInfo],
        amount: u64,
        ctx: &Context,
    ) -> (r: Result<Vec<Action>, ProgramError>)
        ensures
            outcome_is(
                r,
                routed(
                    accounts@,
                    15,
                    withdraw_spec(
                        *program_id,
                        accounts@,
                        multisig_token_withdraw_roles(),
                        Layout { token: true, multisig: true, current: true },
                        amount,
                        *ctx,
                    ),
                ),
            ),
    {
        if accounts.len() < 15 {
            return Err(ProgramError::NotEnoughAccountKeys);
        }
        crate::stream::withdraw(
            program_id,
            accounts,
            &multisig_token_withdraw(),
            Layout { token: true, multisig: true, current: true },
            amount,
            ctx,
        )
    }

    /// Cancels a token multisig stream.
    pub fn process_token_cancel_multisig_stream(
        program_id: &Pubkey,
        accounts: &[AccountInfo],
        ctx: &Context,
    ) -> (r: Result<Vec<Action>, ProgramError>)
        ensures
            outcome_is(
                r,
                routed(
                    accounts@,
                    15,
                    cancel_spec(
                        *program_id,
                        accounts@,
                        multisig_token_cancel_roles(),
                        Layout { token: true, multisig: true, current: true },
                        *ctx,
                    ),
                ),
            ),
    {
        if accounts.len() < 15 {
            return Err(ProgramError::NotEnoughAccountKeys);
        }
        crate::stream::cancel(
            program_id,
            accounts,
            &multisig_token_cancel(),
            Layout { token: true, multisig: true, current: true },
            ctx,
        )
    }

    /// Pauses a token multisig stream.
    pub fn process_pause_token_multisig_stream(
        program_id: &Pubkey,
        accounts: &[AccountInfo],
        ctx: &Context,
    ) -> (r: Result<Vec<Action>, ProgramError>)
        ensures
            outcome_is(
                r,
                routed(
                    accounts@,
                    4,
                    pause_spec(
                        *program_id,
                        accounts@,
                        multisig_parties_roles(),
                        Layout { token: true, multisig: true, current: true },
                        *ctx,
                    ),
                ),
            ),
    {
        if accounts.len() < 4 {
            return Err(ProgramError::NotEnoughAccountKeys);
        }
        crate::stream::pause(
            program_id,
            accounts,
            &multisig_parties(),
            Layout { token: true, multisig: true, current: true },
            ctx,
        )
    }

    /// Resumes a token multisig stream.
    pub fn process_resume_token_multisig_stream(
        program_id: &Pubkey,
        accounts: &[AccountInfo],
        ctx: &Context,
    ) -> (r: Result<Vec<Action>, ProgramError>)
        ensures
            outcome_is(
                r,
                routed(
                    accounts@,
                    4,
                    resume_spec(
                        *program_id,
                        accounts@,
                        multisig_parties_roles(),
                        Layout { token: true, multisig: true, current: true },
                        *ctx,
                    ),
                ),
            ),
    {
        if accounts.len() < 4 {
            return Err(ProgramError::NotEnoughAccountKeys);
        }
        crate::stream::resume(
            program_id,
            accounts,
            &multisig_parties(),
            Layout { token: true, multisig: true, current: true },
            ctx,
        )
    }

    /// Proposes a transfer of tokens out of a multisig safe.
    pub fn process_transfer_token_multisig(
        program_id: &Pubkey,
        accounts: &[AccountInfo],
        data: TokenTransfer,
    ) -> (r: Result<Vec<Action>, ProgramError>)
        ensures
            outcome_is(
                r,
                routed(
                    accounts@,
                    6,
                    propose_spec(
                        *program_id,
                        accounts@,
                        token_propose_roles(),
                        true,
                        data.amount,
                        data.signed_by@,
                    ),
                ),
            ),
    {
        if accounts.len() < 6 {
            return Err(ProgramError::NotEnoughAccountKeys);
        }
        crate::multisig::propose(
            program_id,
            accounts,
            &token_propose(),
            true,
            data.amount,
            data.signed_by,
        )
    }

    /// Approves a proposed transfer of tokens.
    pub fn process_transfer_token_sign_multisig(
        program_id: &Pubkey,
        accounts: &[AccountInfo],
    ) -> (r: Result<Vec<Action>, ProgramError>)
        ensures
            outcome_is(
                r,
                routed(
                    accounts@,
                    12,
                    sign_transfer_spec(*program_id, accounts@, token_proposal_sign_roles(), true),
                ),
            ),
    {
        if accounts.len() < 12 {
            return Err(ProgramError::NotEnoughAccountKeys);
        }
        crate::multisig::sign_transfer(program_id, accounts, &token_proposal_sign(), true)
    }

    /// Rejects a proposed transfer of tokens.
    pub fn process_transfer_token_reject_multisig(
        program_id: &Pubkey,
        accounts: &[AccountInfo],
    ) -> (r: Result<Vec<Action>, ProgramError>)
        ensures
            outcome_is(
                r,
                routed(
                    accounts@,
                    3,
                    reject_transfer_spec(*program_id, accounts@, proposal_reject_roles(), true),
                ),
            ),
    {
        if accounts.len() < 3 {
            return Err(ProgramError::NotEnoughAccountKeys);
        }
        crate::multisig::reject_transfer(program_id, accounts, &proposal_reject(), true)
    }

    /// Processes a request: decodes it and hands it to its handler. A
    /// withdrawal looks at the length of the record cell first: a cell that
    /// has not the length of the current layout goes to the handler of the
    /// legacy layout.
    #[verifier::rlimit(100)]
    #[verifier::spinoff_prover]
    pub fn process(
        program_id: &Pubkey,
        accounts: &[AccountInfo],
        input: &[u8],
        ctx: &Context,
    ) -> (r:
        Result<Vec<Action>, ProgramError>)
        ensures
            outcome_is(r, process_spec(*program_id, accounts@, input@, *ctx)),
    {
        let instruction = TokenInstruction::unpack(input)?;
        match instruction {
            TokenInstruction::ProcessSolStream(p) => Processor::process_sol_stream(
                program_id,
                accounts,
                p.start_time,
                p.end_time,
                p.amount,
                ctx,
            ),
            TokenInstruction::ProcessSolWithdrawStream(p) => {
                if accounts.len() <= 3 {
                    Err(ProgramError::NotEnoughAccountKeys)
                } else if accounts[3].data.len() != 120 {
                    Processor::process_sol_withdraw_stream_deprecated(
                        program_id,
                        accounts,
                        p.amount,
                        ctx,
                    )
                } else {
                    Processor::process_sol_withdraw_stream(program_id, accounts, p.amount, ctx)
                }
            },
            TokenInstruction::ProcessCancelSolStream => Processor::process_cancel_sol_stream(
                program_id,
                accounts,
                ctx,
            ),
            TokenInstruction::ProcessTokenStream(p) => Processor::process_token_stream(
                program_id,
                accounts,
                p.start_time,
                p.end_time,
                p.amount,
                ctx,
            ),
            TokenInstruction::ProcessPauseSolStream => Processor::process_pause_sol_stream(
                program_id,
                accounts,
                ctx,
            ),
            TokenInstruction::ProcessResumeSolStream => Processor::process_resume_sol_stream(
                program_id,
                accounts,
                ctx,
            ),
            TokenInstruction::ProcessTokenWithdrawStream(p) => {
                if accounts.len() <= 3 {
                    Err(ProgramError::NotEnoughAccountKeys)
                } else if accounts[3].data.len() != 152 {
                    Processor::process_token_withdraw_stream_deprecated(
                        program_id,
                        accounts,
                        p.amount,
                        ctx,
                    )
                } else {
                    Processor::process_token_withdraw_stream(program_id, accounts, p.amount, ctx)
                }
            },
            TokenInstruction::ProcessDepositSol(p) => Processor::process_deposit_sol(
                program_id,
                accounts,
                p.amount,
            ),
            TokenInstruction::ProcessCancelTokenStream => Processor::process_token_cancel_stream(
                program_id,
                accounts,
                ctx,
            ),
            TokenInstruction::ProcessPauseTokenStream => Processor::process_pause_token_stream(
                program_id,
                accounts,
                ctx,
            ),
            TokenInstruction::ProcessResumeTokenStream => Processor::process_resume_token_stream(
                program_id,
                accounts,
                ctx,
            ),
            TokenInstruction::ProcessDepositToken(p) => Processor::process_deposit_token(
                program_id,
                accounts,
                p.amount,
            ),
            TokenInstruction::ProcessFundSol(p) => Processor::process_fund_sol(
                program_id,
                accounts,
                p.end_time,
                p.amount,
            ),
            TokenInstruction::ProcessFundToken(p) => Processor::process_fund_token(
                program_id,
                accounts,
                p.end_time,
                p.amount,
            ),
            TokenInstruction::ProcessWithdrawSol(p) => Processor::process_withdraw_sol(
                program_id,
                accounts,
                p.amount,
            ),
            TokenInstruction::ProcessWithdrawToken(p) => Processor::process_withdraw_token(
                program_id,
                accounts,
                p.amount,
            ),
            TokenInstruction::CreateWhitelist { whitelist_v1 } => Processor::process_create_multisig(
                program_id,
                accounts,
                whitelist_v1,
            ),
            TokenInstruction::ProcessSwapSol(p) => Processor::process_swap_sol(
                program_id,
                accounts,
                p.amount,
            ),
            TokenInstruction::ProcessSwapToken(p) => Processor::process_swap_token(
                program_id,
                accounts,
                p.amount,
            ),
            TokenInstruction::SignedBy { whitelist_v2: _ } => Processor::process_sign_stream(
                program_id,
                accounts,
                ctx,
            ),
            TokenInstruction::ProcessSolMultiSigStream { whitelist_v3 } => Processor::process_sol_stream_multisig(
                program_id,
                accounts,
                whitelist_v3,
                ctx,
            ),
            TokenInstruction::ProcessSolWithdrawStreamMultisig(p) => {
                if accounts.len() <= 3 {
                    Err(ProgramError::NotEnoughAccountKeys)
                } else if accounts[3].data.len() != 539 {
                    Processor::process_sol_withdraw_stream_multisig_deprecated(
                        program_id,
                        accounts,
                        p.amount,
                        ctx,
                    )
                } else {
                    Processor::process_sol_withdraw_stream_multisig(
                        program_id,
                        accounts,
                        p.amount,
                        ctx,
                    )
                }
            },
            TokenInstruction::ProcessSolCancelStreamMultisig => Processor::process_cancel_sol_stream_multisig(
                program_id,
                accounts,
                ctx,
            ),
            TokenInstruction::ProcessPauseMultisigStream => Processor::process_pause_sol_stream_multisig(
                program_id,
                accounts,
                ctx,
            ),
            TokenInstruction::ProcessResumeMultisigStream => Processor::process_resume_sol_stream_multisig(
                program_id,
                accounts,
                ctx,
            ),
            TokenInstruction::ProcessRejectMultisigStream => Processor::process_reject_sol_stream_multisig(
                program_id,
                accounts,
                ctx,
            ),
            TokenInstruction::ProcessSolTokenMultiSigStream { whitelist_v4 } => Processor::process_token_multisig_stream(
                program_id,
                accounts,
                whitelist_v4,
                ctx,
            ),
            TokenInstruction::ProcessTokenWithdrawStreamMultisig(p) => {
                if accounts.len() <= 4 {
                    Err(ProgramError::NotEnoughAccountKeys)
                } else if accounts[4].data.len() != 571 {
                    Processor::process_token_withdraw_multisig_stream_deprecated(
                        program_id,
                        accounts,
                        p.amount,
                        ctx,
                    )
                } else {
                    Processor::process_token_withdraw_multisig_stream(
                        program_id,
                        accounts,
                        p.amount,
                        ctx,
                    )
                }
            },
            TokenInstruction::ProcessTokenCancelStreamMultisig => Processor::process_token_cancel_multisig_stream(
                program_id,
                accounts,
                ctx,
            ),
            TokenInstruction::ProcessPauseTokenMultisigStream => Processor::process_pause_token_multisig_stream(
                program_id,
                accounts,
                ctx,
            ),
            TokenInstruction::ProcessResumeTokenMultisigStream => Processor::process_resume_token_multisig_stream(
                program_id,
                accounts,
                ctx,
            ),
            TokenInstruction::ProcessRejectTokenMultisigStream => Processor::process_reject_token_stream_multisig(
                program_id,
                accounts,
                ctx,
            ),
            TokenInstruction::SignedByToken { whitelist_v4: _ } => Processor::process_sign_token_stream(
                program_id,
                accounts,
                ctx,
            ),
            TokenInstruction::ProcessSolTransfer { whitelist_v3 } => Processor::process_transfer_sol_multisig(
                program_id,
                accounts,
                whitelist_v3,
            ),
            TokenInstruction::ProcessTokenTransfer { whitelist_v3 } => Processor::process_transfer_token_multisig(
                program_id,
                accounts,
                whitelist_v3,
            ),
            TokenInstruction::SignedByTransferSol => Processor::process_transfer_sol_sign_multisig(
                program_id,
                accounts,
            ),
            TokenInstruction::SignedByTransferToken => Processor::process_transfer_token_sign_multisig(
                program_id,
                accounts,
            ),
            TokenInstruction::ProcessRejectTransferSol => Processor::process_transfer_sol_reject_multisig(
                program_id,
                accounts,
            ),
            TokenInstruction::ProcessRejectTransferToken => Processor::process_transfer_token_reject_multisig(
                program_id,
                accounts,
            ),
        }
    }
}

/// What the handler of a request does with the accounts.
pub open spec fn dispatched(
    program: Pubkey,
    a: Seq<AccountInfo>,
    v: InstructionView,
    ctx: Context,
) -> Result<
    Seq<ActionView>,
    ProgramError,
> {
    if v.tag == 0 {
        routed(
            a,
            5,
            open_spec(
                program,
                a,
                native_create_roles(),
                Layout { token: false, multisig: false, current: true },
                v.numbers[0],
                v.numbers[1],
                v.numbers[2],
                Seq::empty(),
                false,
                ctx,
            ),
        )
    } else if v.tag == 1 {
        if a.len() <= 3 {
            Err(ProgramError::NotEnoughAccountKeys)
        } else if a[3].data@.len() != 120 {
            routed(
                a,
                7,
                withdraw_spec(
                    program,
                    a,
                    native_release_roles(),
                    Layout { token: false, multisig: false, current: false },
                    v.numbers[0],
                    ctx,
                ),
            )
        } else {
            routed(
                a,
                7,
                withdraw_spec(
                    program,
                    a,
                    native_release_roles(),
                    Layout { token: false, multisig: false, current: true },
                    v.numbers[0],
                    ctx,
                ),
            )
        }
    } else if v.tag == 2 {
        routed(
            a,
            7,
            cancel_spec(
                program,
                a,
                native_release_roles(),
                Layout { token: false, multisig: false, current: true },
                ctx,
            ),
        )
    } else if v.tag == 3 {
        routed(
            a,
            7,
            open_spec(
                program,
                a,
                token_create_roles(),
                Layout { token: true, multisig: false, current: true },
                v.numbers[0],
                v.numbers[1],
                v.numbers[2],
                Seq::empty(),
                false,
                ctx,
            ),
        )
    } else if v.tag == 4 {
        routed(
            a,
            3,
            pause_spec(
                program,
                a,
                parties_roles(),
                Layout { token: false, multisig: false, current: true },
                ctx,
            ),
        )
    } else if v.tag == 5 {
        routed(
            a,
            3,
            resume_spec(
                program,
                a,
                parties_roles(),
                Layout { token: false, multisig: false, current: true },
                ctx,
            ),
        )
    } else if v.tag == 6 {
        if a.len() <= 3 {
            Err(ProgramError::NotEnoughAccountKeys)
        } else if a[3].data@.len() != 152 {
            routed(
                a,
                14,
                withdraw_spec(
                    program,
                    a,
                    token_withdraw_roles(),
                    Layout { token: true, multisig: false, current: false },
                    v.numbers[0],
                    ctx,
                ),
            )
        } else {
            routed(
                a,
                14,
                withdraw_spec(
                    program,
                    a,
                    token_withdraw_roles(),
                    Layout { token: true, multisig: false, current: true },
                    v.numbers[0],
                    ctx,
                ),
            )
        }
    } else if v.tag == 7 {
        routed(a, 3, deposit_spec(program, a, native_deposit_roles(), false, v.numbers[0]))
    } else if v.tag == 8 {
        routed(
            a,
            14,
            cancel_spec(
                program,
                a,
                token_cancel_roles(),
                Layout { token: true, multisig: false, current: true },
                ctx,
            ),
        )
    } else if v.tag == 9 {
        routed(
            a,
            3,
            pause_spec(
                program,
                a,
                parties_roles(),
                Layout { token: true, multisig: false, current: true },
                ctx,
            ),
        )
    } else if v.tag == 10 {
        routed(
            a,
            3,
            resume_spec(
                program,
                a,
                parties_roles(),
                Layout { token: true, multisig: false, current: true },
                ctx,
            ),
        )
    } else if v.tag == 11 {
        routed(a, 9, deposit_spec(program, a, token_deposit_roles(), true, v.numbers[0]))
    } else if v.tag == 12 {
        routed(
            a,
            3,
            fund_spec(
                program,
                a,
                fund_roles(),
                Layout { token: false, multisig: false, current: true },
                v.numbers[0],
                v.numbers[1],
            ),
        )
    } else if v.tag == 13 {
        routed(
            a,
            3,
            fund_spec(
                program,
                a,
                fund_roles(),
                Layout { token: true, multisig: false, current: true },
                v.numbers[0],
                v.numbers[1],
            ),
        )
    } else if v.tag == 14 {
        routed(
            a,
            4,
            vault_withdraw_spec(
                program,
                a,
                native_vault_withdraw_roles(),
                false,
                false,
                v.numbers[0],
            ),
        )
    } else if v.tag == 15 {
        routed(
            a,
            8,
            vault_withdraw_spec(
                program,
                a,
                token_vault_withdraw_roles(),
                true,
                false,
                v.numbers[0],
            ),
        )
    } else if v.tag == 16 {
        routed(
            a,
            4,
            create_multisig_spec(
                program,
                a,
                group_create_roles(),
                v.group->Some_0.signers,
                v.group->Some_0.m,
            ),
        )
    } else if v.tag == 17 {
        routed(
            a,
            6,
            vault_withdraw_spec(program, a, native_swap_roles(), false, true, v.numbers[0]),
        )
    } else if v.tag == 18 {
        routed(a, 13, vault_withdraw_spec(program, a, token_swap_roles(), true, true, v.numbers[0]))
    } else if v.tag == 19 {
        routed(
            a,
            5,
            sign_spec(
                program,
                a,
                stream_sign_roles(),
                Layout { token: false, multisig: true, current: true },
                ctx,
            ),
        )
    } else if v.tag == 20 {
        routed(
            a,
            6,
            open_spec(
                program,
                a,
                multisig_native_create_roles(),
                Layout { token: false, multisig: true, current: true },
                v.record->Some_0.schedule.start_time,
                v.record->Some_0.schedule.end_time,
                v.record->Some_0.schedule.amount,
                v.record->Some_0.signed_by,
                v.record->Some_0.can_cancel,
                ctx,
            ),
        )
    } else if v.tag == 21 {
        if a.len() <= 3 {
            Err(ProgramError::NotEnoughAccountKeys)
        } else if a[3].data@.len() != 539 {
            routed(
                a,
                8,
                withdraw_spec(
                    program,
                    a,
                    multisig_native_release_roles(),
                    Layout { token: false, multisig: true, current: false },
                    v.numbers[0],
                    ctx,
                ),
            )
        } else {
            routed(
                a,
                8,
                withdraw_spec(
                    program,
                    a,
                    multisig_native_release_roles(),
                    Layout { token: false, multisig: true, current: true },
                    v.numbers[0],
                    ctx,
                ),
            )
        }
    } else if v.tag == 22 {
        routed(
            a,
            8,
            cancel_spec(
                program,
                a,
                multisig_native_release_roles(),
                Layout { token: false, multisig: true, current: true },
                ctx,
            ),
        )
    } else if v.tag == 23 {
        routed(
            a,
            4,
            pause_spec(
                program,
                a,
                multisig_parties_roles(),
                Layout { token: false, multisig: true, current: true },
                ctx,
            ),
        )
    } else if v.tag == 24 {
        routed(
            a,
            4,
            resume_spec(
                program,
                a,
                multisig_parties_roles(),
                Layout { token: false, multisig: true, current: true },
                ctx,
            ),
        )
    } else if v.tag == 25 {
        routed(
            a,
            4,
            reject_spec(
                program,
                a,
                native_reject_roles(),
                Layout { token: false, multisig: true, current: true },
                ctx,
            ),
        )
    } else if v.tag == 26 {
        routed(
            a,
            8,
            open_spec(
                program,
                a,
                multisig_token_create_roles(),
                Layout { token: true, multisig: true, current: true },
                v.record->Some_0.schedule.start_time,
                v.record->Some_0.schedule.end_time,
                v.record->Some_0.schedule.amount,
                v.record->Some_0.signed_by,
                v.record->Some_0.can_cancel,
                ctx,
            ),
        )
    } else if v.tag == 27 {
        if a.len() <= 4 {
            Err(ProgramError::NotEnoughAccountKeys)
        } else if a[4].data@.len() != 571 {
            routed(
                a,
                15,
                withdraw_spec(
                    program,
                    a,
                    multisig_token_withdraw_roles(),
                    Layout { token: true, multisig: true, current: false },
                    v.numbers[0],
                    ctx,
                ),
            )
        } else {
            routed(
                a,
                15,
                withdraw_spec(
                    program,
                    a,
                    multisig_token_withdraw_roles(),
                    Layout { token: true, multisig: true, current: true },
                    v.numbers[0],
                    ctx,
                ),
            )
        }
    } else if v.tag == 28 {
        routed(
            a,
            15,
            cancel_spec(
                program,
                a,
                multisig_token_cancel_roles(),
                Layout { token: true, multisig: true, current: true },
                ctx,
            ),
        )
    } else if v.tag == 29 {
        routed(
            a,
            4,
            pause_spec(
                program,
                a,
                multisig_parties_roles(),
                Layout { token: true, multisig: true, current: true },
                ctx,
            ),
        )
    } else if v.tag == 30 {
        routed(
            a,
            4,
            resume_spec(
                program,
                a,
                multisig_parties_roles(),
                Layout { token: true, multisig: true, current: true },
                ctx,
            ),
        )
    } else if v.tag == 31 {
        routed(
            a,
            5,
            reject_spec(
                program,
                a,
                token_reject_roles(),
                Layout { token: true, multisig: true, current: true },
                ctx,
            ),
        )
    } else if v.tag == 32 {
        routed(
            a,
            5,
            sign_spec(
                program,
                a,
                stream_sign_roles(),
                Layout { token: true, multisig: true, current: true },
                ctx,
            ),
        )
    } else if v.tag == 33 {
        routed(
            a,
            5,
            propose_spec(
                program,
                a,
                native_propose_roles(),
                false,
                v.proposal->Some_0.amount,
                v.proposal->Some_0.signed_by,
            ),
        )
    } else if v.tag == 34 {
        routed(
            a,
            6,
            propose_spec(
                program,
                a,
                token_propose_roles(),
                true,
                v.proposal->Some_0.amount,
                v.proposal->Some_0.signed_by,
            ),
        )
    } else if v.tag == 35 {
        routed(a, 6, sign_transfer_spec(program, a, native_proposal_sign_roles(), false))
    } else if v.tag == 36 {
        routed(a, 12, sign_transfer_spec(program, a, token_proposal_sign_roles(), true))
    } else if v.tag == 37 {
        routed(a, 3, reject_transfer_spec(program, a, proposal_reject_roles(), false))
    } else if v.tag == 38 {
        routed(a, 3, reject_transfer_spec(program, a, proposal_reject_roles(), true))
    } else {
        Err(custom(TokenError::InvalidInstruction))
    }
}

/// What the program does with a request: an input that stands for no
/// request fails with `InvalidInstruction`; else the request's handler
/// decides.
pub open spec fn process_spec(
    program: Pubkey,
    a: Seq<AccountInfo>,
    input: Seq<u8>,
    ctx: Context,
) -> Result<
    Seq<ActionView>,
    ProgramError,
> {
    match decoded(input) {
        None => Err(custom(TokenError::InvalidInstruction)),
        Some(v) => dispatched(program, a, v, ctx),
    }
}

} // verus!
