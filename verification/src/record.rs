//! The stream record and its persisted layouts. One record type serves every
//! layout; the layout says which of its fields a cell stores.
use vstd::prelude::*;
use crate::codec::{
    key_at, lemma_int_bytes_len, lemma_u32_round_trip, lemma_u64_round_trip, push_key, push_u32,
    push_u64, read_key, read_u32, read_u64, u32_at, u32_bytes, u64_at, u64_bytes,
};
use crate::error::ProgramError;
use crate::keys::{lemma_pubkey_of, zero_key, zero_pubkey, Pubkey};
use crate::schedule::Schedule;

verus! {

/// A member of a multisig group, or the approval of one.
#[derive(Clone, Copy, Debug)]
pub struct WhiteList {
    pub address: Pubkey,
    pub counter: u8,
}

/// Which fields a record cell stores.
#[derive(Clone, Copy, Debug, PartialEq, Eq, Structural)]
pub struct Layout {
    /// The cell stores a token mint.
    pub token: bool,
    /// The cell stores approvals, the multisig safe and the right to cancel.
    pub multisig: bool,
    /// The cell stores `withdrawn` and `paused_at`. A cell without them is of
    /// the legacy layout, whose `amount` is what remains.
    pub current: bool,
}

/// One stream: its schedule, its parties and, for a multisig stream, its
/// approvals.
#[derive(Clone, Debug)]
pub struct StreamRecord {
    pub schedule: Schedule,
    pub sender: Pubkey,
    pub recipient: Pubkey,
    pub token_mint: Pubkey,
    pub signed_by: Vec<WhiteList>,
    pub multisig_safe: Pubkey,
    pub can_cancel: bool,
}

/// A stream record as a mathematical value.
pub struct StreamRecordView {
    pub schedule: Schedule,
    pub sender: Pubkey,
    pub recipient: Pubkey,
    pub token_mint: Pubkey,
    pub signed_by: Seq<WhiteList>,
    pub multisig_safe: Pubkey,
    pub can_cancel: bool,
}

impl View for StreamRecord {
    type V = StreamRecordView;

    open spec fn view(&self) -> StreamRecordView {
        StreamRecordView {
            schedule: self.schedule,
            sender: self.sender,
            recipient: self.recipient,
            token_mint: self.token_mint,
            signed_by: self.signed_by@,
            multisig_safe: self.multisig_safe,
            can_cancel: self.can_cancel,
        }
    }
}

/// The bytes of a list of members, 33 for each.
pub open spec fn entries_bytes(list: Seq<WhiteList>) -> Seq<u8>
    decreases list.len(),
{
    if list.len() == 0 {
        Seq::empty()
    } else {
        entries_bytes(list.drop_last()) + list.last().address@ + seq![list.last().counter]
    }
}

/// The `n` members stored in `s` from `at`.
pub open spec fn entries_at(s: Seq<u8>, at: int, n: int) -> Seq<WhiteList> {
    Seq::new(
        n as nat,
        |k: int| WhiteList { address: key_at(s, at + 33 * k), counter: s[at + 33 * k + 32] },
    )
}

/// The bytes of a length-prefixed list of members.
pub open spec fn list_bytes(list: Seq<WhiteList>) -> Seq<u8> {
    u32_bytes(list.len() as u32) + entries_bytes(list)
}

/// The byte that stores a flag.
pub open spec fn flag_byte(b: bool) -> u8 {
    if b {
        1
    } else {
        0
    }
}

pub proof fn lemma_entries_len(list: Seq<WhiteList>)
    ensures
        entries_bytes(list).len() == 33 * list.len(),
    decreases list.len(),
{
    if list.len() > 0 {
        lemma_entries_len(list.drop_last());
        lemma_pubkey_of(list.last().address);
    }
}

/// The members read back from their own bytes, wherever these stand, are the
/// members that were written.
pub proof fn lemma_entries_round_trip(list: Seq<WhiteList>, s: Seq<u8>, at: int)
    requires
        0 <= at,
        at + 33 * list.len() <= s.len(),
        s.subrange(at, at + 33 * list.len()) == entries_bytes(list),
    ensures
        entries_at(s, at, list.len() as int) == list,
    decreases list.len(),
{
    let n = list.len() as int;
    lemma_entries_len(list);
    if n > 0 {
        let front = list.drop_last();
        lemma_entries_len(front);
        lemma_pubkey_of(list.last().address);
        let whole = entries_bytes(list);
        assert(s.subrange(at, at + 33 * (n - 1)) =~= whole.subrange(0, 33 * (n - 1)));
        assert(whole.subrange(0, 33 * (n - 1)) =~= entries_bytes(front));
        lemma_entries_round_trip(front, s, at);
        let k = n - 1;
        assert(s.subrange(at + 33 * k, at + 33 * k + 32) =~= list.last().address@) by {
            assert forall|j: int| 0 <= j < 32 implies s[at + 33 * k + j] == list.last().address@[j] by {
                assert(s[at + 33 * k + j] == s.subrange(at, at + 33 * n)[33 * k + j]);
            }
        }
        assert(s[at + 33 * k + 32] == list.last().counter) by {
            assert(s[at + 33 * k + 32] == s.subrange(at, at + 33 * n)[33 * k + 32]);
        }
        let got = entries_at(s, at, n);
        assert(got[k] == list.last());
        assert forall|j: int| 0 <= j < n implies got[j] == list[j] by {
            if j < k {
                assert(entries_at(s, at, k)[j] == front[j]);
            }
        }
        assert(got =~= list);
    } else {
        assert(entries_at(s, at, 0) =~= list);
    }
}

/// Reads `n` members from offset `at`.
pub fn read_entries(data: &[u8], at: usize, n: usize) -> (r: Vec<WhiteList>)
    requires
        at + 33 * n <= data@.len(),
    ensures
        r@ == entries_at(data@, at as int, n as int),
{
    let len: usize = data.len();
    let mut list: Vec<WhiteList> = Vec::new();
    let mut k: usize = 0;
    while k < n
        invariant
            k <= n,
            len == data@.len(),
            at + 33 * n <= len,
            list@ == entries_at(data@, at as int, k as int),
        decreases n - k,
    {
        let address = read_key(data, at + 33 * k);
        let counter = data[at + 33 * k + 32];
        list.push(WhiteList { address, counter });
        assert(list@ =~= entries_at(data@, at as int, k + 1));
        k += 1;
    }
    list
}

/// Appends the bytes of the members of `list`.
pub fn push_entries(out: &mut Vec<u8>, list: &Vec<WhiteList>)
    ensures
        final(out)@ == old(out)@ + entries_bytes(list@),
{
    let mut k: usize = 0;
    assert(list@.subrange(0, 0) =~= Seq::empty());
    assert(out@ =~= old(out)@ + entries_bytes(list@.subrange(0, 0)));
    while k < list.len()
        invariant
            k <= list.len(),
            out@ == old(out)@ + entries_bytes(list@.subrange(0, k as int)),
        decreases list.len() - k,
    {
        let ghost before = out@;
        push_key(out, &list[k].address);
        out.push(list[k].counter);
        proof {
            let next = list@.subrange(0, k + 1);
            assert(next.drop_last() =~= list@.subrange(0, k as int));
            assert(next.last() == list@[k as int]);
            assert(out@ =~= old(out)@ + entries_bytes(next));
        }
        k += 1;
    }
    assert(list@.subrange(0, list.len() as int) =~= list@);
}

impl Layout {
    /// The offset at which a multisig layout stores its approvals.
    pub open spec fn list_at(self) -> int {
        if self.token {
            136
        } else {
            104
        }
    }

    /// The bytes that a layout with `n` approvals takes.
    pub open spec fn packed_len(self, n: int) -> int {
        self.list_at() + (if self.multisig {
            4 + 33 * n + 33
        } else {
            0
        }) + (if self.current {
            16int
        } else {
            0
        })
    }
}

impl StreamRecordView {
    /// The record stores nothing that the layout has no field for, and no
    /// more approvals than a length prefix can count.
    pub open spec fn fits(self, layout: Layout) -> bool {
        &&& self.signed_by.len() <= u32::MAX
        &&& !layout.token ==> self.token_mint == zero_key()
        &&& !layout.multisig ==> self.signed_by.len() == 0 && self.multisig_safe == zero_key()
            && !self.can_cancel
        &&& !layout.current ==> self.schedule.withdrawn == 0 && self.schedule.paused_at == 0
    }
}

/// The bytes that every layout starts with: the window, the pause state, the
/// total and the two parties.
pub open spec fn head_bytes(r: StreamRecordView) -> Seq<u8> {
    u64_bytes(r.schedule.start_time) + u64_bytes(r.schedule.end_time) + u64_bytes(r.schedule.paused)
        + u64_bytes(r.schedule.withdraw_limit) + u64_bytes(r.schedule.amount) + r.sender@
        + r.recipient@
}

/// The bytes of the approvals, the safe and the right to cancel.
pub open spec fn approval_bytes(r: StreamRecordView) -> Seq<u8> {
    list_bytes(r.signed_by) + r.multisig_safe@ + seq![flag_byte(r.can_cancel)]
}

/// The bytes of the progress fields.
pub open spec fn progress_bytes(r: StreamRecordView) -> Seq<u8> {
    u64_bytes(r.schedule.withdrawn) + u64_bytes(r.schedule.paused_at)
}

/// The bytes of a record in a layout.
pub open spec fn record_bytes(layout: Layout, r: StreamRecordView) -> Seq<u8> {
    head_bytes(r) + (if layout.token {
        r.token_mint@
    } else {
        Seq::empty()
    }) + (if layout.multisig {
        approval_bytes(r)
    } else {
        Seq::empty()
    }) + (if layout.current {
        progress_bytes(r)
    } else {
        Seq::empty()
    })
}

/// The record that a cell of a layout holds. A cell without approvals must
/// have the layout's exact length; one with approvals may be longer than its
/// content.
pub open spec fn record_of(layout: Layout, s: Seq<u8>) -> Option<StreamRecordView> {
    let at = layout.list_at();
    if s.len() < at + (if layout.multisig {
        4int
    } else {
        0
    }) {
        None
    } else {
        let n = if layout.multisig {
            u32_at(s, at) as int
        } else {
            0
        };
        let after = if layout.multisig {
            at + 4 + 33 * n + 33
        } else {
            at
        };
        let total = layout.packed_len(n);
        if s.len() < total || (!layout.multisig && s.len() != total) || (layout.multisig && s[after
            - 1] > 1) {
            None
        } else {
            Some(
                StreamRecordView {
                    schedule: Schedule {
                        start_time: u64_at(s, 0),
                        end_time: u64_at(s, 8),
                        paused: u64_at(s, 16),
                        withdraw_limit: u64_at(s, 24),
                        amount: u64_at(s, 32),
                        withdrawn: if layout.current {
                            u64_at(s, after)
                        } else {
                            0
                        },
                        paused_at: if layout.current {
                            u64_at(s, after + 8)
                        } else {
                            0
                        },
                    },
                    sender: key_at(s, 40),
                    recipient: key_at(s, 72),
                    token_mint: if layout.token {
                        key_at(s, 104)
                    } else {
                        zero_key()
                    },
                    signed_by: if layout.multisig {
                        entries_at(s, at + 4, n)
                    } else {
                        Seq::empty()
                    },
                    multisig_safe: if layout.multisig {
                        key_at(s, at + 4 + 33 * n)
                    } else {
                        zero_key()
                    },
                    can_cancel: layout.multisig && s[after - 1] == 1,
                },
            )
        }
    }
}

impl StreamRecord {
    /// Writes the record in a layout.
    pub fn pack(&self, layout: Layout) -> (r: Result<Vec<u8>, ProgramError>)
        ensures
            match r {
                Ok(bytes) => self.signed_by@.len() <= u32::MAX && bytes@ == record_bytes(
                    layout,
                    self@,
                ),
                Err(e) => self.signed_by@.len() > u32::MAX && e == ProgramError::BorshIoError,
            },
    {
        if self.signed_by.len() > 0xffff_ffff {
            return Err(ProgramError::BorshIoError);
        }
        let mut out: Vec<u8> = Vec::new();
        push_u64(&mut out, self.schedule.start_time);
        push_u64(&mut out, self.schedule.end_time);
        push_u64(&mut out, self.schedule.paused);
        push_u64(&mut out, self.schedule.withdraw_limit);
        push_u64(&mut out, self.schedule.amount);
        push_key(&mut out, &self.sender);
        push_key(&mut out, &self.recipient);
        if layout.token {
            push_key(&mut out, &self.token_mint);
        }
        if layout.multisig {
            push_u32(&mut out, self.signed_by.len() as u32);
            push_entries(&mut out, &self.signed_by);
            push_key(&mut out, &self.multisig_safe);
            out.push(if self.can_cancel { 1u8 } else { 0u8 });
        }
        if layout.current {
            push_u64(&mut out, self.schedule.withdrawn);
            push_u64(&mut out, self.schedule.paused_at);
        }
        assert(out@ =~= record_bytes(layout, self@));
        Ok(out)
    }

    /// Reads the record that a cell of a layout holds.
    pub fn unpack(layout: Layout, data: &[u8]) -> (r: Result<StreamRecord, ProgramError>)
        ensures
            match r {
                Ok(rec) => record_of(layout, data@) == Some(rec@) && rec.signed_by@.len()
                    <= u32::MAX,
                Err(e) => record_of(layout, data@) is None && e == ProgramError::BorshIoError,
            },
    {
        let len: u64 = data.len() as u64;
        let at: u64 = if layout.token { 136 } else { 104 };
        let tail: u64 = if layout.current { 16 } else { 0 };
        if len < at + (if layout.multisig { 4 } else { 0 }) {
            return Err(ProgramError::BorshIoError);
        }
        let n: u64 = if layout.multisig { read_u32(data, at as usize) as u64 } else { 0 };
        let after: u64 = if layout.multisig { at + 4 + 33 * n + 33 } else { at };
        let total: u64 = after + tail;
        if len < total || (!layout.multisig && len != total) {
            return Err(ProgramError::BorshIoError);
        }
        if layout.multisig && data[(after - 1) as usize] > 1 {
            return Err(ProgramError::BorshIoError);
        }
        let schedule = Schedule {
            start_time: read_u64(data, 0),
            end_time: read_u64(data, 8),
            paused: read_u64(data, 16),
            withdraw_limit: read_u64(data, 24),
            amount: read_u64(data, 32),
            withdrawn: if layout.current { read_u64(data, after as usize) } else { 0 },
            paused_at: if layout.current { read_u64(data, (after + 8) as usize) } else { 0 },
        };
        let sender = read_key(data, 40);
        let recipient = read_key(data, 72);
        let token_mint = if layout.token { read_key(data, 104) } else { zero_pubkey() };
        let signed_by = if layout.multisig {
            read_entries(data, (at + 4) as usize, n as usize)
        } else {
            Vec::new()
        };
        let multisig_safe = if layout.multisig {
            read_key(data, (at + 4 + 33 * n) as usize)
        } else {
            zero_pubkey()
        };
        let can_cancel = layout.multisig && data[(after - 1) as usize] == 1;
        let rec = StreamRecord {
            schedule,
            sender,
            recipient,
            token_mint,
            signed_by,
            multisig_safe,
            can_cancel,
        };
        assert(rec@.signed_by =~= record_of(layout, data@)->Some_0.signed_by);
        Ok(rec)
    }
}

pub proof fn lemma_key_in(s: Seq<u8>, i: int, k: Pubkey)
    requires
        0 <= i,
        i + 32 <= s.len(),
        s.subrange(i, i + 32) == k@,
    ensures
        key_at(s, i) == k,
{
    lemma_pubkey_of(k);
}

pub proof fn lemma_u64_in(s: Seq<u8>, i: int, x: u64, before: Seq<u8>, after: Seq<u8>)
    requires
        s == before + u64_bytes(x) + after,
        i == before.len(),
    ensures
        u64_at(s, i) == x,
{
    lemma_int_bytes_len(x, 0);
    assert(s.subrange(i, i + 8) =~= u64_bytes(x));
    lemma_u64_round_trip(x, s, i);
}

pub proof fn lemma_key_between(s: Seq<u8>, i: int, k: Pubkey, before: Seq<u8>, after: Seq<u8>)
    requires
        s == before + k@ + after,
        i == before.len(),
    ensures
        key_at(s, i) == k,
{
    lemma_pubkey_of(k);
    assert(s.subrange(i, i + 32) =~= k@);
}

/// A length-prefixed list read back from its own bytes, wherever these
/// stand, is the list that was written.
pub proof fn lemma_list_in(list: Seq<WhiteList>, s: Seq<u8>, before: Seq<u8>, rest: Seq<u8>)
    requires
        list.len() <= u32::MAX,
        s == before + list_bytes(list) + rest,
    ensures
        list_bytes(list).len() == 4 + 33 * list.len(),
        u32_at(s, before.len() as int) == list.len(),
        entries_at(s, (before.len() + 4) as int, list.len() as int) == list,
{
    let n = list.len() as int;
    let at = before.len() as int;
    lemma_int_bytes_len(0, n as u32);
    lemma_entries_len(list);
    assert(s.subrange(at, at + 4) =~= u32_bytes(n as u32));
    lemma_u32_round_trip(n as u32, s, at);
    assert(s.subrange(at + 4, at + 4 + 33 * n) =~= entries_bytes(list));
    lemma_entries_round_trip(list, s, at + 4);
}

proof fn lemma_head(r: StreamRecordView, rest: Seq<u8>)
    ensures
        head_bytes(r).len() == 104,
        ({
            let s = head_bytes(r) + rest;
            &&& u64_at(s, 0) == r.schedule.start_time
            &&& u64_at(s, 8) == r.schedule.end_time
            &&& u64_at(s, 16) == r.schedule.paused
            &&& u64_at(s, 24) == r.schedule.withdraw_limit
            &&& u64_at(s, 32) == r.schedule.amount
            &&& key_at(s, 40) == r.sender
            &&& key_at(s, 72) == r.recipient
        }),
{
    let a = u64_bytes(r.schedule.start_time);
    let b = u64_bytes(r.schedule.end_time);
    let c = u64_bytes(r.schedule.paused);
    let d = u64_bytes(r.schedule.withdraw_limit);
    let e = u64_bytes(r.schedule.amount);
    let f = r.sender@;
    let g = r.recipient@;
    lemma_int_bytes_len(r.schedule.start_time, 0);
    lemma_int_bytes_len(r.schedule.end_time, 0);
    lemma_int_bytes_len(r.schedule.paused, 0);
    lemma_int_bytes_len(r.schedule.withdraw_limit, 0);
    lemma_int_bytes_len(r.schedule.amount, 0);
    lemma_pubkey_of(r.sender);
    lemma_pubkey_of(r.recipient);
    let s = head_bytes(r) + rest;
    assert(s =~= Seq::<u8>::empty() + a + (b + c + d + e + f + g + rest));
    lemma_u64_in(s, 0, r.schedule.start_time, Seq::empty(), b + c + d + e + f + g + rest);
    assert(s =~= a + b + (c + d + e + f + g + rest));
    lemma_u64_in(s, 8, r.schedule.end_time, a, c + d + e + f + g + rest);
    assert(s =~= (a + b) + c + (d + e + f + g + rest));
    lemma_u64_in(s, 16, r.schedule.paused, a + b, d + e + f + g + rest);
    assert(s =~= (a + b + c) + d + (e + f + g + rest));
    lemma_u64_in(s, 24, r.schedule.withdraw_limit, a + b + c, e + f + g + rest);
    assert(s =~= (a + b + c + d) + e + (f + g + rest));
    lemma_u64_in(s, 32, r.schedule.amount, a + b + c + d, f + g + rest);
    assert(s =~= (a + b + c + d + e) + f + (g + rest));
    lemma_key_between(s, 40, r.sender, a + b + c + d + e, g + rest);
    assert(s =~= (a + b + c + d + e + f) + g + rest);
    lemma_key_between(s, 72, r.recipient, a + b + c + d + e + f, rest);
}

proof fn lemma_approval(r: StreamRecordView, before: Seq<u8>, rest: Seq<u8>)
    requires
        r.signed_by.len() <= u32::MAX,
    ensures
        approval_bytes(r).len() == 4 + 33 * r.signed_by.len() + 33,
        ({
            let s = before + approval_bytes(r) + rest;
            let at = before.len() as int;
            let n = r.signed_by.len() as int;
            &&& u32_at(s, at) == n
            &&& entries_at(s, at + 4, n) == r.signed_by
            &&& key_at(s, at + 4 + 33 * n) == r.multisig_safe
            &&& s[at + 4 + 33 * n + 32] == flag_byte(r.can_cancel)
        }),
{
    let n = r.signed_by.len() as int;
    let at = before.len() as int;
    let c = u32_bytes(n as u32);
    let e = entries_bytes(r.signed_by);
    let k = r.multisig_safe@;
    let f = seq![flag_byte(r.can_cancel)];
    lemma_int_bytes_len(0, n as u32);
    lemma_entries_len(r.signed_by);
    lemma_pubkey_of(r.multisig_safe);
    let s = before + approval_bytes(r) + rest;
    assert(approval_bytes(r) =~= c + e + k + f);
    assert(s.subrange(at, at + 4) =~= c);
    lemma_u32_round_trip(n as u32, s, at);
    assert(s.subrange(at + 4, at + 4 + 33 * n) =~= e);
    lemma_entries_round_trip(r.signed_by, s, at + 4);
    assert(s.subrange(at + 4 + 33 * n, at + 4 + 33 * n + 32) =~= k);
    lemma_key_in(s, at + 4 + 33 * n, r.multisig_safe);
}

proof fn lemma_progress(r: StreamRecordView, before: Seq<u8>, rest: Seq<u8>)
    ensures
        progress_bytes(r).len() == 16,
        ({
            let s = before + progress_bytes(r) + rest;
            let at = before.len() as int;
            &&& u64_at(s, at) == r.schedule.withdrawn
            &&& u64_at(s, at + 8) == r.schedule.paused_at
        }),
{
    let a = u64_bytes(r.schedule.withdrawn);
    let b = u64_bytes(r.schedule.paused_at);
    lemma_int_bytes_len(r.schedule.withdrawn, 0);
    lemma_int_bytes_len(r.schedule.paused_at, 0);
    let s = before + progress_bytes(r) + rest;
    assert(s =~= before + a + (b + rest));
    lemma_u64_in(s, before.len() as int, r.schedule.withdrawn, before, b + rest);
    assert(s =~= (before + a) + b + rest);
    lemma_u64_in(s, (before.len() + 8) as int, r.schedule.paused_at, before + a, rest);
}

/// The bytes of a record in a layout have the layout's length.
pub proof fn lemma_record_len(layout: Layout, r: StreamRecordView)
    requires
        r.signed_by.len() <= u32::MAX,
    ensures
        record_bytes(layout, r).len() == layout.packed_len(r.signed_by.len() as int),
{
    lemma_head(r, Seq::empty());
    lemma_pubkey_of(r.token_mint);
    lemma_approval(r, Seq::empty(), Seq::empty());
    lemma_progress(r, Seq::empty(), Seq::empty());
}

proof fn lemma_record_of_fields(layout: Layout, r: StreamRecordView, s: Seq<u8>)
    requires
        r.fits(layout),
        layout.multisig || s.len() == layout.packed_len(0),
        layout.multisig ==> s.len() >= layout.list_at() + 4 && u32_at(s, layout.list_at())
            == r.signed_by.len() && s.len() >= layout.packed_len(r.signed_by.len() as int),
        u64_at(s, 0) == r.schedule.start_time,
        u64_at(s, 8) == r.schedule.end_time,
        u64_at(s, 16) == r.schedule.paused,
        u64_at(s, 24) == r.schedule.withdraw_limit,
        u64_at(s, 32) == r.schedule.amount,
        key_at(s, 40) == r.sender,
        key_at(s, 72) == r.recipient,
        layout.token ==> key_at(s, 104) == r.token_mint,
        layout.multisig ==> entries_at(s, layout.list_at() + 4, r.signed_by.len() as int)
            == r.signed_by,
        layout.multisig ==> key_at(s, layout.list_at() + 4 + 33 * r.signed_by.len())
            == r.multisig_safe,
        layout.multisig ==> s[layout.list_at() + 4 + 33 * r.signed_by.len() + 32] == flag_byte(
            r.can_cancel,
        ),
        layout.current ==> u64_at(
            s,
            layout.packed_len(r.signed_by.len() as int) - 16,
        ) == r.schedule.withdrawn,
        layout.current ==> u64_at(
            s,
            layout.packed_len(r.signed_by.len() as int) - 8,
        ) == r.schedule.paused_at,
    ensures
        record_of(layout, s) == Some(r),
{
    let got = record_of(layout, s)->Some_0;
    assert(record_of(layout, s) is Some);
    assert(got.signed_by =~= r.signed_by);
    assert(got.schedule == r.schedule);
}

/// Writing a record in a layout and reading the cell back gives the record,
/// also where the cell of a multisig layout is longer than its content.
#[verifier::rlimit(80)]
#[verifier::spinoff_prover]
pub proof fn law_record_round_trip(layout: Layout, r: StreamRecordView, rest: Seq<u8>)
    requires
        r.fits(layout),
        !layout.multisig ==> rest.len() == 0,
    ensures
        record_of(layout, record_bytes(layout, r) + rest) == Some(r),
{
    let s = record_bytes(layout, r) + rest;
    let n = r.signed_by.len() as int;
    let h = head_bytes(r);
    let m = if layout.token {
        r.token_mint@
    } else {
        Seq::empty()
    };
    let a = if layout.multisig {
        approval_bytes(r)
    } else {
        Seq::empty()
    };
    let p = if layout.current {
        progress_bytes(r)
    } else {
        Seq::empty()
    };
    let at = layout.list_at();
    let after = if layout.multisig {
        at + 4 + 33 * n + 33
    } else {
        at
    };
    assert(s.len() == layout.packed_len(n) + rest.len()) by {
        lemma_record_len(layout, r);
    }
    assert(h.len() == 104 && u64_at(s, 0) == r.schedule.start_time && u64_at(s, 8)
        == r.schedule.end_time && u64_at(s, 16) == r.schedule.paused && u64_at(s, 24)
        == r.schedule.withdraw_limit && u64_at(s, 32) == r.schedule.amount && key_at(s, 40)
        == r.sender && key_at(s, 72) == r.recipient) by {
        assert(s =~= h + (m + a + p + rest));
        lemma_head(r, m + a + p + rest);
    }
    assert(m.len() == at - 104 && (layout.token ==> key_at(s, 104) == r.token_mint)) by {
        lemma_pubkey_of(r.token_mint);
        if layout.token {
            assert(s =~= h + r.token_mint@ + (a + p + rest));
            lemma_key_between(s, 104, r.token_mint, h, a + p + rest);
        }
    }
    assert(a.len() == after - at && (layout.multisig ==> u32_at(s, at) == n && entries_at(
        s,
        at + 4,
        n,
    ) == r.signed_by && key_at(s, at + 4 + 33 * n) == r.multisig_safe && s[after - 1] == flag_byte(
        r.can_cancel,
    ))) by {
        if layout.multisig {
            assert(s =~= (h + m) + approval_bytes(r) + (p + rest));
            lemma_approval(r, h + m, p + rest);
        }
    }
    assert(layout.current ==> u64_at(s, after) == r.schedule.withdrawn && u64_at(s, after + 8)
        == r.schedule.paused_at) by {
        if layout.current {
            assert(s =~= (h + m + a) + progress_bytes(r) + rest);
            lemma_progress(r, h + m + a, rest);
        }
    }
    lemma_record_of_fields(layout, r, s);
}

} // verus!
