//! Multisig groups, transfer proposals and reservation ledgers: the cells
//! beside the stream records.
use vstd::prelude::*;
use crate::codec::{
    key_at, lemma_int_bytes_len, lemma_u64_round_trip, push_key, push_u32, push_u64, read_key,
    read_u32, read_u64, u32_at, u64_at, u64_bytes,
};
use crate::error::ProgramError;
use crate::keys::{lemma_pubkey_of, zero_key, zero_pubkey, Pubkey};
use crate::record::{
    entries_at, lemma_key_between, lemma_list_in, lemma_u64_in, list_bytes, push_entries,
    read_entries, WhiteList,
};

verus! {

/// Fewest members that a group's threshold may ask for.
pub const MIN_SIGNERS: usize = 1;

/// Most members that a group may have.
pub const MAX_SIGNERS: usize = 11;

/// Bytes of a reservation ledger cell.
pub const LEDGER_LEN: usize = 8;

/// Bytes of a multisig group cell.
pub const MULTISIG_LEN: usize = 419;

/// Bytes of a native transfer proposal cell.
pub const SOL_TRANSFER_LEN: usize = 483;

/// Bytes of a token transfer proposal cell.
pub const TOKEN_TRANSFER_LEN: usize = 515;

/// A multisig group: its members, its threshold and its safe.
#[derive(Clone, Debug)]
pub struct Multisig {
    pub signers: Vec<WhiteList>,
    pub m: u8,
    pub multisig_safe: Pubkey,
}

/// A multisig group as a mathematical value.
pub struct MultisigView {
    pub signers: Seq<WhiteList>,
    pub m: u8,
    pub multisig_safe: Pubkey,
}

impl View for Multisig {
    type V = MultisigView;

    open spec fn view(&self) -> MultisigView {
        MultisigView { signers: self.signers@, m: self.m, multisig_safe: self.multisig_safe }
    }
}

/// `key` is the address of one of `list`.
pub open spec fn is_member(list: Seq<WhiteList>, key: Pubkey) -> bool {
    exists|i: int| 0 <= i < list.len() && #[trigger] list[i].address == key
}

/// No address stands twice in `list`.
pub open spec fn distinct(list: Seq<WhiteList>) -> bool {
    forall|i: int, j: int|
        0 <= i < j < list.len() ==> #[trigger] list[i].address != #[trigger] list[j].address
}

/// Every address of `list` is an address of `of`.
pub open spec fn subset_of(list: Seq<WhiteList>, of: Seq<WhiteList>) -> bool {
    forall|i: int| 0 <= i < list.len() ==> is_member(of, #[trigger] list[i].address)
}

impl MultisigView {
    /// The invariant of a group: between one and eleven distinct members, and
    /// a threshold that they can meet.
    pub open spec fn wf(self) -> bool {
        &&& 1 <= self.m <= self.signers.len() <= 11
        &&& distinct(self.signers)
    }
}

/// The bytes of a group.
pub open spec fn multisig_bytes(g: MultisigView) -> Seq<u8> {
    list_bytes(g.signers) + seq![g.m] + g.multisig_safe@
}

/// The group that a cell holds; the cell may be longer than its content.
pub open spec fn multisig_of(s: Seq<u8>) -> Option<MultisigView> {
    if s.len() < 4 {
        None
    } else {
        let n = u32_at(s, 0) as int;
        if s.len() < 4 + 33 * n + 33 {
            None
        } else {
            Some(
                MultisigView {
                    signers: entries_at(s, 4, n),
                    m: s[4 + 33 * n],
                    multisig_safe: key_at(s, 4 + 33 * n + 1),
                },
            )
        }
    }
}

/// Whether `key` is the address of one of `list`.
pub fn contains_key(list: &Vec<WhiteList>, key: &Pubkey) -> (r: bool)
    ensures
        r == is_member(list@, *key),
{
    let mut i: usize = 0;
    while i < list.len()
        invariant
            i <= list.len(),
            forall|j: int| 0 <= j < i ==> list@[j].address != *key,
        decreases list.len() - i,
    {
        if list[i].address == *key {
            return true;
        }
        i += 1;
    }
    false
}

/// Whether no address stands twice in `list`.
pub fn all_distinct(list: &Vec<WhiteList>) -> (r: bool)
    ensures
        r == distinct(list@),
{
    let mut j: usize = 0;
    while j < list.len()
        invariant
            j <= list.len(),
            distinct(list@.subrange(0, j as int)),
        decreases list.len() - j,
    {
        let mut i: usize = 0;
        while i < j
            invariant
                i <= j,
                j < list.len(),
                forall|k: int| 0 <= k < i ==> list@[k].address != list@[j as int].address,
            decreases j - i,
        {
            if list[i].address == list[j].address {
                return false;
            }
            i += 1;
        }
        assert forall|a: int, b: int| 0 <= a < b < j + 1 implies #[trigger] list@.subrange(
            0,
            j + 1,
        )[a].address != #[trigger] list@.subrange(0, j + 1)[b].address by {
            if b < j {
                assert(list@.subrange(0, j as int)[a].address != list@.subrange(
                    0,
                    j as int,
                )[b].address);
            }
        }
        j += 1;
    }
    assert(list@.subrange(0, list.len() as int) =~= list@);
    true
}

/// Whether every address of `list` is an address of `of`.
pub fn all_members(list: &Vec<WhiteList>, of: &Vec<WhiteList>) -> (r: bool)
    ensures
        r == subset_of(list@, of@),
{
    let mut i: usize = 0;
    while i < list.len()
        invariant
            i <= list.len(),
            forall|j: int| 0 <= j < i ==> is_member(of@, #[trigger] list@[j].address),
        decreases list.len() - i,
    {
        if !contains_key(of, &list[i].address) {
            return false;
        }
        i += 1;
    }
    true
}

/// Copies a list of members.
pub fn copy_list(list: &Vec<WhiteList>) -> (r: Vec<WhiteList>)
    ensures
        r@ == list@,
{
    let mut out: Vec<WhiteList> = Vec::new();
    let mut i: usize = 0;
    while i < list.len()
        invariant
            i <= list.len(),
            out@ == list@.subrange(0, i as int),
        decreases list.len() - i,
    {
        out.push(list[i]);
        assert(out@ =~= list@.subrange(0, i + 1));
        i += 1;
    }
    assert(list@.subrange(0, list.len() as int) =~= list@);
    out
}

impl Multisig {
    /// Reads the group that the cell of an account holds.
    pub fn from_account(account: &crate::account::AccountInfo) -> (r: Result<Multisig, ProgramError>)
        ensures
            match r {
                Ok(g) => multisig_of(account.data@) == Some(g@),
                Err(e) => multisig_of(account.data@) is None && e == ProgramError::BorshIoError,
            },
    {
        Multisig::unpack(account.data.as_slice())
    }

    /// Writes the group.
    pub fn pack(&self) -> (r: Result<Vec<u8>, ProgramError>)
        ensures
            match r {
                Ok(bytes) => self.signers@.len() <= u32::MAX && bytes@ == multisig_bytes(self@),
                Err(e) => self.signers@.len() > u32::MAX && e == ProgramError::BorshIoError,
            },
    {
        if self.signers.len() > 0xffff_ffff {
            return Err(ProgramError::BorshIoError);
        }
        let mut out: Vec<u8> = Vec::new();
        push_u32(&mut out, self.signers.len() as u32);
        push_entries(&mut out, &self.signers);
        out.push(self.m);
        push_key(&mut out, &self.multisig_safe);
        assert(out@ =~= multisig_bytes(self@));
        Ok(out)
    }

    /// Reads the group that a cell holds.
    pub fn unpack(data: &[u8]) -> (r: Result<Multisig, ProgramError>)
        ensures
            match r {
                Ok(g) => multisig_of(data@) == Some(g@) && g.signers@.len() <= u32::MAX,
                Err(e) => multisig_of(data@) is None && e == ProgramError::BorshIoError,
            },
    {
        let len: u64 = data.len() as u64;
        if len < 4 {
            return Err(ProgramError::BorshIoError);
        }
        let n: u64 = read_u32(data, 0) as u64;
        if len < 4 + 33 * n + 33 {
            return Err(ProgramError::BorshIoError);
        }
        let signers = read_entries(data, 4, n as usize);
        let m = data[(4 + 33 * n) as usize];
        let multisig_safe = read_key(data, (4 + 33 * n + 1) as usize);
        let g = Multisig { signers, m, multisig_safe };
        assert(g@.signers =~= multisig_of(data@)->Some_0.signers);
        Ok(g)
    }
}

/// Writing a group and reading the cell back gives the group, whatever
/// follows its bytes in the cell.
pub proof fn law_group_round_trip(g: MultisigView, rest: Seq<u8>)
    requires
        g.signers.len() <= u32::MAX,
    ensures
        multisig_of(multisig_bytes(g) + rest) == Some(g),
{
    let s = multisig_bytes(g) + rest;
    let n = g.signers.len() as int;
    let l = list_bytes(g.signers);
    lemma_pubkey_of(g.multisig_safe);
    assert(s =~= Seq::<u8>::empty() + l + (seq![g.m] + g.multisig_safe@ + rest));
    lemma_list_in(g.signers, s, Seq::empty(), seq![g.m] + g.multisig_safe@ + rest);
    assert(s[4 + 33 * n] == g.m);
    assert(s =~= (l + seq![g.m]) + g.multisig_safe@ + rest);
    lemma_key_between(s, 4 + 33 * n + 1, g.multisig_safe, l + seq![g.m], rest);
    let got = multisig_of(s)->Some_0;
    assert(got.signers =~= g.signers);
}

/// A one-shot transfer out of a multisig safe that waits for approvals.
#[derive(Clone, Debug)]
pub struct TransferProposal {
    pub sender: Pubkey,
    pub recipient: Pubkey,
    pub signed_by: Vec<WhiteList>,
    pub multisig_safe: Pubkey,
    pub amount: u64,
    pub token_mint: Pubkey,
}

/// A transfer proposal as a mathematical value.
pub struct TransferProposalView {
    pub sender: Pubkey,
    pub recipient: Pubkey,
    pub signed_by: Seq<WhiteList>,
    pub multisig_safe: Pubkey,
    pub amount: u64,
    pub token_mint: Pubkey,
}

impl View for TransferProposal {
    type V = TransferProposalView;

    open spec fn view(&self) -> TransferProposalView {
        TransferProposalView {
            sender: self.sender,
            recipient: self.recipient,
            signed_by: self.signed_by@,
            multisig_safe: self.multisig_safe,
            amount: self.amount,
            token_mint: self.token_mint,
        }
    }
}

/// The bytes of a proposal; `token` says whether the mint is stored.
pub open spec fn proposal_bytes(token: bool, p: TransferProposalView) -> Seq<u8> {
    p.sender@ + p.recipient@ + list_bytes(p.signed_by) + p.multisig_safe@ + u64_bytes(p.amount) + (
    if token {
        p.token_mint@
    } else {
        Seq::empty()
    })
}

/// The bytes that a proposal with `n` approvals takes.
pub open spec fn proposal_len(token: bool, n: int) -> int {
    64 + 4 + 33 * n + 40 + (if token {
        32int
    } else {
        0
    })
}

/// The proposal that a cell holds; the cell may be longer than its content.
pub open spec fn proposal_of(token: bool, s: Seq<u8>) -> Option<TransferProposalView> {
    if s.len() < 68 {
        None
    } else {
        let n = u32_at(s, 64) as int;
        if s.len() < proposal_len(token, n) {
            None
        } else {
            Some(
                TransferProposalView {
                    sender: key_at(s, 0),
                    recipient: key_at(s, 32),
                    signed_by: entries_at(s, 68, n),
                    multisig_safe: key_at(s, 68 + 33 * n),
                    amount: u64_at(s, 68 + 33 * n + 32),
                    token_mint: if token {
                        key_at(s, 68 + 33 * n + 40)
                    } else {
                        zero_key()
                    },
                },
            )
        }
    }
}

impl TransferProposal {
    /// Writes the proposal.
    pub fn pack(&self, token: bool) -> (r: Result<Vec<u8>, ProgramError>)
        ensures
            match r {
                Ok(bytes) => self.signed_by@.len() <= u32::MAX && bytes@ == proposal_bytes(
                    token,
                    self@,
                ),
                Err(e) => self.signed_by@.len() > u32::MAX && e == ProgramError::BorshIoError,
            },
    {
        if self.signed_by.len() > 0xffff_ffff {
            return Err(ProgramError::BorshIoError);
        }
        let mut out: Vec<u8> = Vec::new();
        push_key(&mut out, &self.sender);
        push_key(&mut out, &self.recipient);
        push_u32(&mut out, self.signed_by.len() as u32);
        push_entries(&mut out, &self.signed_by);
        push_key(&mut out, &self.multisig_safe);
        push_u64(&mut out, self.amount);
        if token {
            push_key(&mut out, &self.token_mint);
        }
        assert(out@ =~= proposal_bytes(token, self@));
        Ok(out)
    }

    /// Reads the proposal that a cell holds.
    pub fn unpack(token: bool, data: &[u8]) -> (r: Result<TransferProposal, ProgramError>)
        ensures
            match r {
                Ok(p) => proposal_of(token, data@) == Some(p@) && p.signed_by@.len() <= u32::MAX,
                Err(e) => proposal_of(token, data@) is None && e == ProgramError::BorshIoError,
            },
    {
        let len: u64 = data.len() as u64;
        if len < 68 {
            return Err(ProgramError::BorshIoError);
        }
        let n: u64 = read_u32(data, 64) as u64;
        if len < 64 + 4 + 33 * n + 40 + (if token { 32 } else { 0 }) {
            return Err(ProgramError::BorshIoError);
        }
        let sender = read_key(data, 0);
        let recipient = read_key(data, 32);
        let signed_by = read_entries(data, 68, n as usize);
        let multisig_safe = read_key(data, (68 + 33 * n) as usize);
        let amount = read_u64(data, (68 + 33 * n + 32) as usize);
        let token_mint = if token {
            read_key(data, (68 + 33 * n + 40) as usize)
        } else {
            zero_pubkey()
        };
        let p = TransferProposal { sender, recipient, signed_by, multisig_safe, amount, token_mint };
        assert(p@.signed_by =~= proposal_of(token, data@)->Some_0.signed_by);
        Ok(p)
    }
}

/// Writing a proposal and reading the cell back gives the proposal, whatever
/// follows its bytes in the cell.
#[verifier::rlimit(40)]
pub proof fn law_proposal_round_trip(token: bool, p: TransferProposalView, rest: Seq<u8>)
    requires
        p.signed_by.len() <= u32::MAX,
        !token ==> p.token_mint == zero_key(),
    ensures
        proposal_of(token, proposal_bytes(token, p) + rest) == Some(p),
{
    let s = proposal_bytes(token, p) + rest;
    let n = p.signed_by.len() as int;
    let a = p.sender@;
    let b = p.recipient@;
    let l = list_bytes(p.signed_by);
    let k = p.multisig_safe@;
    let v = u64_bytes(p.amount);
    let m = if token {
        p.token_mint@
    } else {
        Seq::empty()
    };
    lemma_pubkey_of(p.sender);
    lemma_pubkey_of(p.recipient);
    lemma_pubkey_of(p.multisig_safe);
    lemma_pubkey_of(p.token_mint);
    lemma_int_bytes_len(p.amount, 0);
    assert(s =~= Seq::<u8>::empty() + a + (b + l + k + v + m + rest));
    lemma_key_between(s, 0, p.sender, Seq::empty(), b + l + k + v + m + rest);
    assert(s =~= a + b + (l + k + v + m + rest));
    lemma_key_between(s, 32, p.recipient, a, l + k + v + m + rest);
    assert(s =~= (a + b) + l + (k + v + m + rest));
    lemma_list_in(p.signed_by, s, a + b, k + v + m + rest);
    assert(s =~= (a + b + l) + k + (v + m + rest));
    lemma_key_between(s, 68 + 33 * n, p.multisig_safe, a + b + l, v + m + rest);
    assert(s =~= (a + b + l + k) + v + (m + rest));
    lemma_u64_in(s, 68 + 33 * n + 32, p.amount, a + b + l + k, m + rest);
    if token {
        assert(s =~= (a + b + l + k + v) + p.token_mint@ + rest);
        lemma_key_between(s, 68 + 33 * n + 40, p.token_mint, a + b + l + k + v, rest);
    }
    let got = proposal_of(token, s)->Some_0;
    assert(got.signed_by =~= p.signed_by);
}

/// The reservation ledger of a sender's native streams: what the live
/// streams still owe.
#[derive(Clone, Copy, Debug, PartialEq, Eq, Structural)]
pub struct Withdraw {
    pub amount: u64,
}

/// The reservation ledger of a sender's streams of one token.
#[derive(Clone, Copy, Debug, PartialEq, Eq, Structural)]
pub struct TokenWithdraw {
    pub amount: u64,
}

/// The amount that a ledger cell holds: the cell has exactly eight bytes.
pub open spec fn ledger_of(s: Seq<u8>) -> Option<u64> {
    if s.len() == 8 {
        Some(u64_at(s, 0))
    } else {
        None
    }
}

/// Reads the amount that a ledger cell holds.
pub fn read_ledger(data: &[u8]) -> (r: Result<u64, ProgramError>)
    ensures
        match r {
            Ok(amount) => ledger_of(data@) == Some(amount),
            Err(e) => ledger_of(data@) is None && e == ProgramError::BorshIoError,
        },
{
    if data.len() != 8 {
        return Err(ProgramError::BorshIoError);
    }
    Ok(read_u64(data, 0))
}

/// Writes a ledger cell.
pub fn write_ledger(amount: u64) -> (r: Vec<u8>)
    ensures
        r@ == u64_bytes(amount),
        ledger_of(r@) == Some(amount),
{
    let mut out: Vec<u8> = Vec::new();
    push_u64(&mut out, amount);
    proof {
        lemma_int_bytes_len(amount, 0);
        assert(out@ =~= u64_bytes(amount));
        assert(out@.subrange(0, 8) =~= u64_bytes(amount));
        lemma_u64_round_trip(amount, out@, 0);
    }
    out
}

impl Withdraw {
    /// Writes the ledger.
    pub fn pack(&self) -> (r: Vec<u8>)
        ensures
            r@ == u64_bytes(self.amount),
            ledger_of(r@) == Some(self.amount),
    {
        write_ledger(self.amount)
    }

    /// Reads the ledger that a cell holds.
    pub fn unpack(data: &[u8]) -> (r: Result<Withdraw, ProgramError>)
        ensures
            match r {
                Ok(w) => ledger_of(data@) == Some(w.amount),
                Err(e) => ledger_of(data@) is None && e == ProgramError::BorshIoError,
            },
    {
        match read_ledger(data) {
            Ok(amount) => Ok(Withdraw { amount }),
            Err(e) => Err(e),
        }
    }
}

impl TokenWithdraw {
    /// Writes the ledger.
    pub fn pack(&self) -> (r: Vec<u8>)
        ensures
            r@ == u64_bytes(self.amount),
            ledger_of(r@) == Some(self.amount),
    {
        write_ledger(self.amount)
    }

    /// Reads the ledger that a cell holds.
    pub fn unpack(data: &[u8]) -> (r: Result<TokenWithdraw, ProgramError>)
        ensures
            match r {
                Ok(w) => ledger_of(data@) == Some(w.amount),
                Err(e) => ledger_of(data@) is None && e == ProgramError::BorshIoError,
            },
    {
        match read_ledger(data) {
            Ok(amount) => Ok(TokenWithdraw { amount }),
            Err(e) => Err(e),
        }
    }
}

} // verus!
