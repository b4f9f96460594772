//! Accounts as the handlers see them, and what a handler asks the runtime
//! to do.
use vstd::prelude::*;
use crate::keys::Pubkey;

verus! {

/// One account of an instruction, as plain values.
#[derive(Clone, Debug)]
pub struct AccountInfo {
    pub key: Pubkey,
    pub is_signer: bool,
    pub lamports: u64,
    pub data: Vec<u8>,
    pub owner: Pubkey,
}

/// The namespace of a derived cell.
#[derive(Clone, Copy, Debug, PartialEq, Eq, Structural)]
pub enum Tag {
    /// A sender's native vault: derived from the sender alone.
    Vault,
    /// A sender's native reservation ledger.
    WithdrawSol,
    /// A sender's reservation ledger of one token.
    WithdrawToken,
    /// A multisig safe's reservation ledger.
    WithdrawMultisigSol,
    /// The safe of a multisig group.
    MultisigSafe,
}

/// The seeds under which the program signs for a derived cell.
#[derive(Clone, Copy, Debug)]
pub struct Seeds {
    pub tag: Tag,
    pub key: Pubkey,
    pub mint: Option<Pubkey>,
    pub bump: u8,
}

/// One thing that a handler asks the runtime to do. A handler's actions are
/// performed in their order, and all or none of them.
#[derive(Debug)]
pub enum Action {
    /// Move `lamports` from one system account to another; the program signs
    /// for `from` where `seeds` are given.
    Transfer { from: Pubkey, to: Pubkey, lamports: u64, seeds: Option<Seeds> },
    /// Move `amount` of a token from one token account to another under
    /// `authority`; the program signs for the authority where `seeds` are given.
    TokenTransfer {
        source: Pubkey,
        destination: Pubkey,
        authority: Pubkey,
        amount: u64,
        seeds: Option<Seeds>,
    },
    /// Create the cell `account` of `space` bytes, owned by `owner` and paid
    /// by `payer` with `rent_times` times the rent-exempt minimum of
    /// `rent_space` bytes; the program signs for the cell where `seeds` are given.
    CreateAccount {
        payer: Pubkey,
        account: Pubkey,
        space: u64,
        rent_space: u64,
        rent_times: u64,
        owner: Pubkey,
        seeds: Option<Seeds>,
    },
    /// Create the associated token account of `wallet` for `mint`, paid by `payer`.
    CreateAssociatedTokenAccount { payer: Pubkey, wallet: Pubkey, mint: Pubkey },
    /// Hand all lamports of the program's cell `cell` to `to`.
    Close { cell: Pubkey, to: Pubkey },
    /// Overwrite the start of the data of `cell` with `data`.
    Write { cell: Pubkey, data: Vec<u8> },
}

/// An action as a mathematical value.
pub enum ActionView {
    Transfer { from: Pubkey, to: Pubkey, lamports: u64, seeds: Option<Seeds> },
    TokenTransfer {
        source: Pubkey,
        destination: Pubkey,
        authority: Pubkey,
        amount: u64,
        seeds: Option<Seeds>,
    },
    CreateAccount {
        payer: Pubkey,
        account: Pubkey,
        space: u64,
        rent_space: u64,
        rent_times: u64,
        owner: Pubkey,
        seeds: Option<Seeds>,
    },
    CreateAssociatedTokenAccount { payer: Pubkey, wallet: Pubkey, mint: Pubkey },
    Close { cell: Pubkey, to: Pubkey },
    Write { cell: Pubkey, data: Seq<u8> },
}

impl View for Action {
    type V = ActionView;

    open spec fn view(&self) -> ActionView {
        match *self {
            Action::Transfer { from, to, lamports, seeds } => ActionView::Transfer {
                from,
                to,
                lamports,
                seeds,
            },
            Action::TokenTransfer {
                source,
                destination,
                authority,
                amount,
                seeds,
            } => ActionView::TokenTransfer { source, destination, authority, amount, seeds },
            Action::CreateAccount {
                payer,
                account,
                space,
                rent_space,
                rent_times,
                owner,
                seeds,
            } => ActionView::CreateAccount {
                payer,
                account,
                space,
                rent_space,
                rent_times,
                owner,
                seeds,
            },
            Action::CreateAssociatedTokenAccount {
                payer,
                wallet,
                mint,
            } => ActionView::CreateAssociatedTokenAccount { payer, wallet, mint },
            Action::Close { cell, to } => ActionView::Close { cell, to },
            Action::Write { cell, data } => ActionView::Write { cell, data: data@ },
        }
    }
}

/// The actions of a list, each as a mathematical value.
pub open spec fn views(actions: Seq<Action>) -> Seq<ActionView> {
    actions.map_values(|a: Action| a@)
}

/// Appends an action to a list.
pub fn emit(out: &mut Vec<Action>, action: Action)
    ensures
        views(final(out)@) == views(old(out)@).push(action@),
{
    out.push(action);
    assert(views(out@) =~= views(old(out)@).push(action@));
}

/// A list without actions.
pub fn no_actions() -> (r: Vec<Action>)
    ensures
        views(r@) == Seq::<ActionView>::empty(),
{
    let r: Vec<Action> = Vec::new();
    assert(views(r@) =~= Seq::<ActionView>::empty());
    r
}

/// The tag of the native reservation ledger.
pub const PREFIX: &'static str = "withdraw_sol";

/// The tag of a token reservation ledger.
pub const PREFIX_TOKEN: &'static str = "withdraw_token";

/// The tag of a multisig reservation ledger.
pub const PREFIXMULTISIG: &'static str = "withdraw_multisig_sol";

/// The tag of a multisig safe.
pub const PREFIXMULTISIGSAFE: &'static str = "multisig_safe";

} // verus!
