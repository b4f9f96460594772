//! The checks that the handlers share: loading the program's cells and
//! holding the accounts of an instruction to their derivations.
use vstd::prelude::*;
use crate::account::{emit, AccountInfo, Action, ActionView, Seeds, Tag};
use crate::error::{custom, ProgramError, TokenError};
use crate::group::{
    all_distinct, all_members, distinct, ledger_of, multisig_of, proposal_of, read_ledger,
    subset_of, Multisig, MultisigView, TransferProposal, TransferProposalView,
};
use crate::keys::Pubkey;
use crate::record::{record_of, Layout, StreamRecord, StreamRecordView, WhiteList};
use crate::schedule::{commission, fee_split};
use crate::utils::{
    associated_token_address, cell_address, cell_seeds, create_transfer, derive_cell,
    get_associated_token_address,
};

verus! {

/// What the runtime tells a handler beside its accounts.
#[derive(Clone, Copy, Debug)]
pub struct Context {
    /// The clock, in unix seconds.
    pub now: u64,
    /// The fee sink.
    pub fee_receiver: Pubkey,
}

/// The stream record in a cell of the program.
pub open spec fn loaded_record(program: Pubkey, cell: AccountInfo, layout: Layout) -> Result<
    StreamRecordView,
    ProgramError,
> {
    if cell.owner != program {
        Err(ProgramError::InvalidArgument)
    } else if cell.data@.len() == 0 {
        Err(ProgramError::UninitializedAccount)
    } else {
        match record_of(layout, cell.data@) {
            Some(rec) => Ok(rec),
            None => Err(ProgramError::BorshIoError),
        }
    }
}

/// Loads the stream record in a cell of the program.
pub fn load_record(program_id: &Pubkey, cell: &AccountInfo, layout: Layout) -> (r: Result<
    StreamRecord,
    ProgramError,
>)
    ensures
        match r {
            Ok(rec) => loaded_record(*program_id, *cell, layout) == Ok::<
                StreamRecordView,
                ProgramError,
            >(rec@) && rec.signed_by@.len() <= u32::MAX,
            Err(e) => loaded_record(*program_id, *cell, layout) == Err::<
                StreamRecordView,
                ProgramError,
            >(e),
        },
{
    if cell.owner != *program_id {
        return Err(ProgramError::InvalidArgument);
    }
    if cell.data.len() == 0 {
        return Err(ProgramError::UninitializedAccount);
    }
    StreamRecord::unpack(layout, cell.data.as_slice())
}

/// The multisig group in a cell of the program.
pub open spec fn loaded_group(program: Pubkey, cell: AccountInfo) -> Result<
    MultisigView,
    ProgramError,
> {
    if cell.owner != program {
        Err(ProgramError::InvalidArgument)
    } else {
        match multisig_of(cell.data@) {
            Some(g) => Ok(g),
            None => Err(ProgramError::BorshIoError),
        }
    }
}

/// Loads the multisig group in a cell of the program.
pub fn load_group(program_id: &Pubkey, cell: &AccountInfo) -> (r: Result<Multisig, ProgramError>)
    ensures
        match r {
            Ok(g) => loaded_group(*program_id, *cell) == Ok::<MultisigView, ProgramError>(g@),
            Err(e) => loaded_group(*program_id, *cell) == Err::<MultisigView, ProgramError>(e),
        },
{
    if cell.owner != *program_id {
        return Err(ProgramError::InvalidArgument);
    }
    Multisig::unpack(cell.data.as_slice())
}

/// The transfer proposal in a cell of the program.
pub open spec fn loaded_proposal(program: Pubkey, cell: AccountInfo, token: bool) -> Result<
    TransferProposalView,
    ProgramError,
> {
    if cell.owner != program {
        Err(ProgramError::InvalidArgument)
    } else {
        match proposal_of(token, cell.data@) {
            Some(p) => Ok(p),
            None => Err(ProgramError::BorshIoError),
        }
    }
}

/// Loads the transfer proposal in a cell of the program.
pub fn load_proposal(program_id: &Pubkey, cell: &AccountInfo, token: bool) -> (r: Result<
    TransferProposal,
    ProgramError,
>)
    ensures
        match r {
            Ok(p) => loaded_proposal(*program_id, *cell, token) == Ok::<
                TransferProposalView,
                ProgramError,
            >(p@),
            Err(e) => loaded_proposal(*program_id, *cell, token) == Err::<
                TransferProposalView,
                ProgramError,
            >(e),
        },
{
    if cell.owner != *program_id {
        return Err(ProgramError::InvalidArgument);
    }
    TransferProposal::unpack(token, cell.data.as_slice())
}

/// The amount in a reservation ledger of the program.
pub open spec fn loaded_ledger(program: Pubkey, cell: AccountInfo) -> Result<u64, ProgramError> {
    if cell.owner != program {
        Err(ProgramError::InvalidArgument)
    } else {
        match ledger_of(cell.data@) {
            Some(amount) => Ok(amount),
            None => Err(ProgramError::BorshIoError),
        }
    }
}

/// Loads the amount in a reservation ledger of the program.
pub fn load_ledger(program_id: &Pubkey, cell: &AccountInfo) -> (r: Result<u64, ProgramError>)
    ensures
        r == loaded_ledger(*program_id, *cell),
{
    if cell.owner != *program_id {
        return Err(ProgramError::InvalidArgument);
    }
    read_ledger(cell.data.as_slice())
}

/// The seeds of the cell that `account` claims to be, or `PublicKeyMismatch`
/// where its key is not the address derived in the namespace.
pub open spec fn checked_cell(
    program: Pubkey,
    account: AccountInfo,
    tag: Tag,
    key: Pubkey,
    mint: Option<Pubkey>,
) -> Result<Seeds, ProgramError> {
    match cell_address(tag, key, mint, program) {
        Some((address, bump)) => if address == account.key {
            Ok(cell_seeds(tag, key, mint, program))
        } else {
            Err(custom(TokenError::PublicKeyMismatch))
        },
        None => Err(custom(TokenError::PublicKeyMismatch)),
    }
}

/// Holds an account to its derivation and gives the seeds to sign for it.
pub fn check_cell(
    program_id: &Pubkey,
    account: &AccountInfo,
    tag: Tag,
    key: &Pubkey,
    mint: Option<Pubkey>,
) -> (r: Result<Seeds, ProgramError>)
    ensures
        r == checked_cell(*program_id, *account, tag, *key, mint),
{
    match derive_cell(tag, key, mint, program_id) {
        Some((address, seeds)) => {
            if address == account.key {
                Ok(seeds)
            } else {
                Err(ProgramError::from(TokenError::PublicKeyMismatch))
            }
        },
        None => Err(ProgramError::from(TokenError::PublicKeyMismatch)),
    }
}

/// `account` is the associated token account of `wallet` for `mint`.
pub open spec fn is_token_account_of(account: AccountInfo, wallet: Pubkey, mint: Pubkey) -> bool {
    associated_token_address(wallet, mint) == Some(account.key)
}

/// Whether `account` is the associated token account of `wallet` for `mint`.
pub fn check_token_account(account: &AccountInfo, wallet: &Pubkey, mint: &Pubkey) -> (r: bool)
    ensures
        r == is_token_account_of(*account, *wallet, *mint),
{
    match get_associated_token_address(wallet, mint) {
        Some(address) => address == account.key,
        None => false,
    }
}

/// The tag of the reservation ledger of a single sender or of a multisig safe.
pub open spec fn ledger_tag(token: bool, multisig: bool) -> Tag {
    if multisig {
        Tag::WithdrawMultisigSol
    } else if token {
        Tag::WithdrawToken
    } else {
        Tag::WithdrawSol
    }
}

/// The tag of the reservation ledger of a single sender or of a multisig safe.
pub fn ledger_tag_of(token: bool, multisig: bool) -> (r: Tag)
    ensures
        r == ledger_tag(token, multisig),
{
    if multisig {
        Tag::WithdrawMultisigSol
    } else if token {
        Tag::WithdrawToken
    } else {
        Tag::WithdrawSol
    }
}

/// The mint of a token ledger, none of a native one.
pub open spec fn ledger_mint(token: bool, mint: Pubkey) -> Option<Pubkey> {
    if token {
        Some(mint)
    } else {
        None
    }
}

/// The two transfers of a native release: the commission to the fee sink,
/// the rest to the recipient, both out of the vault.
pub open spec fn native_payout(vault: Pubkey, fee: Pubkey, dest: Pubkey, amount: u64, seeds: Seeds) -> Seq<
    ActionView,
> {
    seq![
        ActionView::Transfer {
            from: vault,
            to: fee,
            lamports: commission(amount) as u64,
            seeds: Some(seeds),
        },
        ActionView::Transfer {
            from: vault,
            to: dest,
            lamports: (amount - commission(amount)) as u64,
            seeds: Some(seeds),
        },
    ]
}

/// Emits the two transfers of a native release.
pub fn emit_native_payout(
    out: &mut Vec<Action>,
    vault: &AccountInfo,
    fee: &AccountInfo,
    dest: &AccountInfo,
    amount: u64,
    seeds: Seeds,
)
    ensures
        crate::account::views(final(out)@) == crate::account::views(old(out)@) + native_payout(
            vault.key,
            fee.key,
            dest.key,
            amount,
            seeds,
        ),
{
    let (fee_amount, rest) = fee_split(amount);
    let ghost before = crate::account::views(out@);
    emit(out, create_transfer(vault, fee, fee_amount, seeds));
    emit(out, create_transfer(vault, dest, rest, seeds));
    assert(crate::account::views(out@) =~= before + native_payout(
        vault.key,
        fee.key,
        dest.key,
        amount,
        seeds,
    ));
}

/// The accounts of a token release.
#[derive(Clone, Copy, Debug)]
pub struct TokenPayout {
    /// The vault, which is the authority over its token account.
    pub vault: Pubkey,
    /// The token account of the vault.
    pub vault_token: Pubkey,
    /// The recipient and its token account.
    pub dest: Pubkey,
    pub dest_token: Pubkey,
    /// The fee sink and its token account.
    pub fee: Pubkey,
    pub fee_token: Pubkey,
    pub mint: Pubkey,
    /// Who pays for a token account of the recipient that must be created.
    pub payer: Pubkey,
    /// The token account of the recipient, or of the fee sink, does not exist yet.
    pub dest_missing: bool,
    pub fee_missing: bool,
}

/// The actions of a token release: the token accounts of the recipient and
/// of the fee sink are created where they are missing, the latter charged to
/// the recipient; then the commission goes to the fee sink and the rest to
/// the recipient.
pub open spec fn token_payout(p: TokenPayout, amount: u64, seeds: Seeds) -> Seq<ActionView> {
    (if p.dest_missing {
        seq![
            ActionView::CreateAssociatedTokenAccount { payer: p.payer, wallet: p.dest, mint: p.mint },
        ]
    } else {
        Seq::empty()
    }) + (if p.fee_missing {
        seq![
            ActionView::CreateAssociatedTokenAccount { payer: p.dest, wallet: p.fee, mint: p.mint },
        ]
    } else {
        Seq::empty()
    }) + seq![
        ActionView::TokenTransfer {
            source: p.vault_token,
            destination: p.fee_token,
            authority: p.vault,
            amount: commission(amount) as u64,
            seeds: Some(seeds),
        },
        ActionView::TokenTransfer {
            source: p.vault_token,
            destination: p.dest_token,
            authority: p.vault,
            amount: (amount - commission(amount)) as u64,
            seeds: Some(seeds),
        },
    ]
}

/// Emits the actions of a token release.
pub fn emit_token_payout(out: &mut Vec<Action>, p: &TokenPayout, amount: u64, seeds: Seeds)
    ensures
        crate::account::views(final(out)@) == crate::account::views(old(out)@) + token_payout(
            *p,
            amount,
            seeds,
        ),
{
    let (fee_amount, rest) = fee_split(amount);
    let ghost before = crate::account::views(out@);
    if p.dest_missing {
        emit(out, Action::CreateAssociatedTokenAccount { payer: p.payer, wallet: p.dest, mint: p.mint });
    }
    if p.fee_missing {
        emit(out, Action::CreateAssociatedTokenAccount { payer: p.dest, wallet: p.fee, mint: p.mint });
    }
    emit(
        out,
        Action::TokenTransfer {
            source: p.vault_token,
            destination: p.fee_token,
            authority: p.vault,
            amount: fee_amount,
            seeds: Some(seeds),
        },
    );
    emit(
        out,
        Action::TokenTransfer {
            source: p.vault_token,
            destination: p.dest_token,
            authority: p.vault,
            amount: rest,
            seeds: Some(seeds),
        },
    );
    assert(crate::account::views(out@) =~= before + token_payout(*p, amount, seeds));
}

/// The actions that leave a reservation ledger with `amount`: a ledger that
/// returns to zero is closed and its storage deposit goes to `to`.
pub open spec fn ledger_update(ledger: Pubkey, to: Pubkey, amount: u64) -> Seq<ActionView> {
    (if amount == 0 {
        seq![ActionView::Close { cell: ledger, to }]
    } else {
        Seq::empty()
    }) + seq![ActionView::Write { cell: ledger, data: crate::codec::u64_bytes(amount) }]
}

/// Emits the actions that leave a reservation ledger with `amount`.
pub fn emit_ledger_update(out: &mut Vec<Action>, ledger: &Pubkey, to: &Pubkey, amount: u64)
    ensures
        crate::account::views(final(out)@) == crate::account::views(old(out)@) + ledger_update(
            *ledger,
            *to,
            amount,
        ),
{
    let ghost before = crate::account::views(out@);
    if amount == 0 {
        emit(out, Action::Close { cell: *ledger, to: *to });
    }
    emit(out, Action::Write { cell: *ledger, data: crate::group::write_ledger(amount) });
    assert(crate::account::views(out@) =~= before + ledger_update(*ledger, *to, amount));
}

/// The actions that leave a stream record as `data`: a record that owes
/// nothing more is closed and its storage deposit goes to `to`.
pub open spec fn record_update(record: Pubkey, to: Pubkey, done: bool, data: Seq<u8>) -> Seq<
    ActionView,
> {
    (if done {
        seq![ActionView::Close { cell: record, to }]
    } else {
        Seq::empty()
    }) + seq![ActionView::Write { cell: record, data }]
}

/// Emits the actions that leave a stream record as `data`.
pub fn emit_record_update(out: &mut Vec<Action>, record: &Pubkey, to: &Pubkey, done: bool, data: Vec<u8>)
    ensures
        crate::account::views(final(out)@) == crate::account::views(old(out)@) + record_update(
            *record,
            *to,
            done,
            data@,
        ),
{
    let ghost before = crate::account::views(out@);
    let ghost bytes = data@;
    if done {
        emit(out, Action::Close { cell: *record, to: *to });
    }
    emit(out, Action::Write { cell: *record, data });
    assert(crate::account::views(out@) =~= before + record_update(*record, *to, done, bytes));
}

/// The approvals that a request brings are of distinct members of the group.
pub open spec fn approvals_valid(signed_by: Seq<WhiteList>, signers: Seq<WhiteList>) -> bool {
    distinct(signed_by) && subset_of(signed_by, signers)
}

/// Whether the approvals that a request brings are of distinct members.
pub fn check_approvals(signed_by: &Vec<WhiteList>, signers: &Vec<WhiteList>) -> (r: bool)
    ensures
        r == approvals_valid(signed_by@, signers@),
{
    all_distinct(signed_by) && all_members(signed_by, signers)
}

/// The action that creates a cell of the program.
pub open spec fn create_cell(
    payer: Pubkey,
    account: Pubkey,
    space: u64,
    rent_space: u64,
    rent_times: u64,
    program: Pubkey,
    seeds: Option<Seeds>,
) -> ActionView {
    ActionView::CreateAccount { payer, account, space, rent_space, rent_times, owner: program, seeds }
}

} // verus!
