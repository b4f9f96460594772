//! The stream records of each persisted layout, as types of their own, and
//! the two kinds of transfer proposal.
use vstd::prelude::*;
use crate::account::AccountInfo;
use crate::error::ProgramError;
use crate::group::{copy_list, proposal_bytes, proposal_of, TransferProposal, TransferProposalView};
use crate::keys::{zero_key, zero_pubkey, Pubkey};
use crate::record::{record_bytes, record_of, Layout, StreamRecord, StreamRecordView, WhiteList};
use crate::schedule::{release_at, released, Schedule};

verus! {

/// A cell that can say whether it has been written.
pub trait IsInitialized {
    /// Whether the cell has been written.
    fn is_initialized(&self) -> bool;
}

/// A native stream in the legacy layout, which keeps no count of what was withdrawn: its `amount` is what remains.
#[derive(Clone, Copy, Debug)]
pub struct Escrow {
    pub start_time: u64,
    pub end_time: u64,
    pub paused: u64,
    pub withdraw_limit: u64,
    pub amount: u64,
    pub sender: Pubkey,
    pub recipient: Pubkey,
}

impl Escrow {
    /// The layout of the cells of this type.
    pub open spec fn layout() -> Layout {
        Layout { token: false, multisig: false, current: false }
    }

    /// The value as a stream record.
    pub open spec fn record_view(&self) -> StreamRecordView {
        StreamRecordView {
            schedule: Schedule {
                start_time: self.start_time,
                end_time: self.end_time,
                paused: self.paused,
                withdraw_limit: self.withdraw_limit,
                amount: self.amount,
                withdrawn: 0,
                paused_at: 0,
            },
            sender: self.sender,
            recipient: self.recipient,
            token_mint: zero_key(),
            signed_by: Seq::empty(),
            multisig_safe: zero_key(),
            can_cancel: false,
        }
    }

    /// The value as a stream record.
    pub fn to_record(&self) -> (r: StreamRecord)
        ensures
            r@ == self.record_view(),
    {
        let r = StreamRecord {
            schedule: Schedule {
                start_time: self.start_time,
                end_time: self.end_time,
                paused: self.paused,
                withdraw_limit: self.withdraw_limit,
                amount: self.amount,
                withdrawn: 0,
                paused_at: 0,
            },
            sender: self.sender,
            recipient: self.recipient,
            token_mint: zero_pubkey(),
            signed_by: Vec::new(),
            multisig_safe: zero_pubkey(),
            can_cancel: false,
        };
        assert(r@.signed_by =~= self.record_view().signed_by);
        r
    }

    /// The fields of a stream record that this layout stores.
    pub fn from_record(rec: StreamRecord) -> (r: Escrow)
        ensures
            rec@.fits(Self::layout()) ==> r.record_view() == rec@,
            record_bytes(Self::layout(), r.record_view()) == record_bytes(Self::layout(), rec@),
    {
        let r = Escrow {
            start_time: rec.schedule.start_time,
            end_time: rec.schedule.end_time,
            paused: rec.schedule.paused,
            withdraw_limit: rec.schedule.withdraw_limit,
            amount: rec.schedule.amount,
            sender: rec.sender,
            recipient: rec.recipient,
        };
        assert(rec@.fits(Self::layout()) ==> r.record_view().signed_by =~= rec@.signed_by);
        r
    }

    /// What the stream has released at `now`: nothing up to its start, its
    /// whole amount from its end on, and in between the share of the
    /// elapsed time, rounded down.
    pub fn allowed_amt(&self, now: u64) -> (r: u64)
        ensures
            r == released(self.start_time, self.end_time, self.amount, now),
            r <= self.amount,
    {
        release_at(self.start_time, self.end_time, self.amount, now)
    }

    /// Writes the value in its layout.
    pub fn pack(&self) -> (r: Result<Vec<u8>, ProgramError>)
        ensures
            match r {
                Ok(bytes) => bytes@ == record_bytes(Self::layout(), self.record_view()),
                Err(e) => self.record_view().signed_by.len() > u32::MAX && e
                    == ProgramError::BorshIoError,
            },
    {
        self.to_record().pack(Layout { token: false, multisig: false, current: false })
    }

    /// Reads the value that a cell holds.
    pub fn unpack(data: &[u8]) -> (r: Result<Escrow, ProgramError>)
        ensures
            match r {
                Ok(value) => record_of(Self::layout(), data@) == Some(value.record_view()),
                Err(e) => record_of(Self::layout(), data@) is None && e
                    == ProgramError::BorshIoError,
            },
    {
        let layout = Layout { token: false, multisig: false, current: false };
        match StreamRecord::unpack(layout, data) {
            Ok(rec) => {
                proof {
                    crate::state::lemma_read_fits(layout, data@);
                }
                Ok(Escrow::from_record(rec))
            },
            Err(e) => Err(e),
        }
    }
}

/// A native stream.
#[derive(Clone, Copy, Debug)]
pub struct Stream {
    pub start_time: u64,
    pub end_time: u64,
    pub paused: u64,
    pub withdraw_limit: u64,
    pub amount: u64,
    pub sender: Pubkey,
    pub recipient: Pubkey,
    pub withdrawn: u64,
    pub paused_at: u64,
}

impl Stream {
    /// The layout of the cells of this type.
    pub open spec fn layout() -> Layout {
        Layout { token: false, multisig: false, current: true }
    }

    /// The value as a stream record.
    pub open spec fn record_view(&self) -> StreamRecordView {
        StreamRecordView {
            schedule: Schedule {
                start_time: self.start_time,
                end_time: self.end_time,
                paused: self.paused,
                withdraw_limit: self.withdraw_limit,
                amount: self.amount,
                withdrawn: self.withdrawn,
                paused_at: self.paused_at,
            },
            sender: self.sender,
            recipient: self.recipient,
            token_mint: zero_key(),
            signed_by: Seq::empty(),
            multisig_safe: zero_key(),
            can_cancel: false,
        }
    }

    /// The value as a stream record.
    pub fn to_record(&self) -> (r: StreamRecord)
        ensures
            r@ == self.record_view(),
    {
        let r = StreamRecord {
            schedule: Schedule {
                start_time: self.start_time,
                end_time: self.end_time,
                paused: self.paused,
                withdraw_limit: self.withdraw_limit,
                amount: self.amount,
                withdrawn: self.withdrawn,
                paused_at: self.paused_at,
            },
            sender: self.sender,
            recipient: self.recipient,
            token_mint: zero_pubkey(),
            signed_by: Vec::new(),
            multisig_safe: zero_pubkey(),
            can_cancel: false,
        };
        assert(r@.signed_by =~= self.record_view().signed_by);
        r
    }

    /// The fields of a stream record that this layout stores.
    pub fn from_record(rec: StreamRecord) -> (r: Stream)
        ensures
            rec@.fits(Self::layout()) ==> r.record_view() == rec@,
            record_bytes(Self::layout(), r.record_view()) == record_bytes(Self::layout(), rec@),
    {
        let r = Stream {
            start_time: rec.schedule.start_time,
            end_time: rec.schedule.end_time,
            paused: rec.schedule.paused,
            withdraw_limit: rec.schedule.withdraw_limit,
            amount: rec.schedule.amount,
            sender: rec.sender,
            recipient: rec.recipient,
            withdrawn: rec.schedule.withdrawn,
            paused_at: rec.schedule.paused_at,
        };
        assert(rec@.fits(Self::layout()) ==> r.record_view().signed_by =~= rec@.signed_by);
        r
    }

    /// What the stream has released at `now`: nothing up to its start, its
    /// whole amount from its end on, and in between the share of the
    /// elapsed time, rounded down.
    pub fn allowed_amt(&self, now: u64) -> (r: u64)
        ensures
            r == released(self.start_time, self.end_time, self.amount, now),
            r <= self.amount,
    {
        release_at(self.start_time, self.end_time, self.amount, now)
    }

    /// Writes the value in its layout.
    pub fn pack(&self) -> (r: Result<Vec<u8>, ProgramError>)
        ensures
            match r {
                Ok(bytes) => bytes@ == record_bytes(Self::layout(), self.record_view()),
                Err(e) => self.record_view().signed_by.len() > u32::MAX && e
                    == ProgramError::BorshIoError,
            },
    {
        self.to_record().pack(Layout { token: false, multisig: false, current: true })
    }

    /// Reads the value that a cell holds.
    pub fn unpack(data: &[u8]) -> (r: Result<Stream, ProgramError>)
        ensures
            match r {
                Ok(value) => record_of(Self::layout(), data@) == Some(value.record_view()),
                Err(e) => record_of(Self::layout(), data@) is None && e
                    == ProgramError::BorshIoError,
            },
    {
        let layout = Layout { token: false, multisig: false, current: true };
        match StreamRecord::unpack(layout, data) {
            Ok(rec) => {
                proof {
                    crate::state::lemma_read_fits(layout, data@);
                }
                Ok(Stream::from_record(rec))
            },
            Err(e) => Err(e),
        }
    }
}

/// A token stream in the legacy layout, whose `amount` is what remains.
#[derive(Clone, Copy, Debug)]
pub struct TokenEscrow {
    pub start_time: u64,
    pub end_time: u64,
    pub paused: u64,
    pub withdraw_limit: u64,
    pub amount: u64,
    pub sender: Pubkey,
    pub recipient: Pubkey,
    pub token_mint: Pubkey,
}

impl TokenEscrow {
    /// The layout of the cells of this type.
    pub open spec fn layout() -> Layout {
        Layout { token: true, multisig: false, current: false }
    }

    /// The value as a stream record.
    pub open spec fn record_view(&self) -> StreamRecordView {
        StreamRecordView {
            schedule: Schedule {
                start_time: self.start_time,
                end_time: self.end_time,
                paused: self.paused,
                withdraw_limit: self.withdraw_limit,
                amount: self.amount,
                withdrawn: 0,
                paused_at: 0,
            },
            sender: self.sender,
            recipient: self.recipient,
            token_mint: self.token_mint,
            signed_by: Seq::empty(),
            multisig_safe: zero_key(),
            can_cancel: false,
        }
    }

    /// The value as a stream record.
    pub fn to_record(&self) -> (r: StreamRecord)
        ensures
            r@ == self.record_view(),
    {
        let r = StreamRecord {
            schedule: Schedule {
                start_time: self.start_time,
                end_time: self.end_time,
                paused: self.paused,
                withdraw_limit: self.withdraw_limit,
                amount: self.amount,
                withdrawn: 0,
                paused_at: 0,
            },
            sender: self.sender,
            recipient: self.recipient,
            token_mint: self.token_mint,
            signed_by: Vec::new(),
            multisig_safe: zero_pubkey(),
            can_cancel: false,
        };
        assert(r@.signed_by =~= self.record_view().signed_by);
        r
    }

    /// The fields of a stream record that this layout stores.
    pub fn from_record(rec: StreamRecord) -> (r: TokenEscrow)
        ensures
            rec@.fits(Self::layout()) ==> r.record_view() == rec@,
            record_bytes(Self::layout(), r.record_view()) == record_bytes(Self::layout(), rec@),
    {
        let r = TokenEscrow {
            start_time: rec.schedule.start_time,
            end_time: rec.schedule.end_time,
            paused: rec.schedule.paused,
            withdraw_limit: rec.schedule.withdraw_limit,
            amount: rec.schedule.amount,
            sender: rec.sender,
            recipient: rec.recipient,
            token_mint: rec.token_mint,
        };
        assert(rec@.fits(Self::layout()) ==> r.record_view().signed_by =~= rec@.signed_by);
        r
    }

    /// What the stream has released at `now`: nothing up to its start, its
    /// whole amount from its end on, and in between the share of the
    /// elapsed time, rounded down.
    pub fn allowed_amt(&self, now: u64) -> (r: u64)
        ensures
            r == released(self.start_time, self.end_time, self.amount, now),
            r <= self.amount,
    {
        release_at(self.start_time, self.end_time, self.amount, now)
    }

    /// Writes the value in its layout.
    pub fn pack(&self) -> (r: Result<Vec<u8>, ProgramError>)
        ensures
            match r {
                Ok(bytes) => bytes@ == record_bytes(Self::layout(), self.record_view()),
                Err(e) => self.record_view().signed_by.len() > u32::MAX && e
                    == ProgramError::BorshIoError,
            },
    {
        self.to_record().pack(Layout { token: true, multisig: false, current: false })
    }

    /// Reads the value that a cell holds.
    pub fn unpack(data: &[u8]) -> (r: Result<TokenEscrow, ProgramError>)
        ensures
            match r {
                Ok(value) => record_of(Self::layout(), data@) == Some(value.record_view()),
                Err(e) => record_of(Self::layout(), data@) is None && e
                    == ProgramError::BorshIoError,
            },
    {
        let layout = Layout { token: true, multisig: false, current: false };
        match StreamRecord::unpack(layout, data) {
            Ok(rec) => {
                proof {
                    crate::state::lemma_read_fits(layout, data@);
                }
                Ok(TokenEscrow::from_record(rec))
            },
            Err(e) => Err(e),
        }
    }
}

/// A token stream.
#[derive(Clone, Copy, Debug)]
pub struct StreamToken {
    pub start_time: u64,
    pub end_time: u64,
    pub paused: u64,
    pub withdraw_limit: u64,
    pub amount: u64,
    pub sender: Pubkey,
    pub recipient: Pubkey,
    pub token_mint: Pubkey,
    pub withdrawn: u64,
    pub paused_at: u64,
}

impl StreamToken {
    /// The layout of the cells of this type.
    pub open spec fn layout() -> Layout {
        Layout { token: true, multisig: false, current: true }
    }

    /// The value as a stream record.
    pub open spec fn record_view(&self) -> StreamRecordView {
        StreamRecordView {
            schedule: Schedule {
                start_time: self.start_time,
                end_time: self.end_time,
                paused: self.paused,
                withdraw_limit: self.withdraw_limit,
                amount: self.amount,
                withdrawn: self.withdrawn,
                paused_at: self.paused_at,
            },
            sender: self.sender,
            recipient: self.recipient,
            token_mint: self.token_mint,
            signed_by: Seq::empty(),
            multisig_safe: zero_key(),
            can_cancel: false,
        }
    }

    /// The value as a stream record.
    pub fn to_record(&self) -> (r: StreamRecord)
        ensures
            r@ == self.record_view(),
    {
        let r = StreamRecord {
            schedule: Schedule {
                start_time: self.start_time,
                end_time: self.end_time,
                paused: self.paused,
                withdraw_limit: self.withdraw_limit,
                amount: self.amount,
                withdrawn: self.withdrawn,
                paused_at: self.paused_at,
            },
            sender: self.sender,
            recipient: self.recipient,
            token_mint: self.token_mint,
            signed_by: Vec::new(),
            multisig_safe: zero_pubkey(),
            can_cancel: false,
        };
        assert(r@.signed_by =~= self.record_view().signed_by);
        r
    }

    /// The fields of a stream record that this layout stores.
    pub fn from_record(rec: StreamRecord) -> (r: StreamToken)
        ensures
            rec@.fits(Self::layout()) ==> r.record_view() == rec@,
            record_bytes(Self::layout(), r.record_view()) == record_bytes(Self::layout(), rec@),
    {
        let r = StreamToken {
            start_time: rec.schedule.start_time,
            end_time: rec.schedule.end_time,
            paused: rec.schedule.paused,
            withdraw_limit: rec.schedule.withdraw_limit,
            amount: rec.schedule.amount,
            sender: rec.sender,
            recipient: rec.recipient,
            token_mint: rec.token_mint,
            withdrawn: rec.schedule.withdrawn,
            paused_at: rec.schedule.paused_at,
        };
        assert(rec@.fits(Self::layout()) ==> r.record_view().signed_by =~= rec@.signed_by);
        r
    }

    /// What the stream has released at `now`: nothing up to its start, its
    /// whole amount from its end on, and in between the share of the
    /// elapsed time, rounded down.
    pub fn allowed_amt(&self, now: u64) -> (r: u64)
        ensures
            r == released(self.start_time, self.end_time, self.amount, now),
            r <= self.amount,
    {
        release_at(self.start_time, self.end_time, self.amount, now)
    }

    /// Writes the value in its layout.
    pub fn pack(&self) -> (r: Result<Vec<u8>, ProgramError>)
        ensures
            match r {
                Ok(bytes) => bytes@ == record_bytes(Self::layout(), self.record_view()),
                Err(e) => self.record_view().signed_by.len() > u32::MAX && e
                    == ProgramError::BorshIoError,
            },
    {
        self.to_record().pack(Layout { token: true, multisig: false, current: true })
    }

    /// Reads the value that a cell holds.
    pub fn unpack(data: &[u8]) -> (r: Result<StreamToken, ProgramError>)
        ensures
            match r {
                Ok(value) => record_of(Self::layout(), data@) == Some(value.record_view()),
                Err(e) => record_of(Self::layout(), data@) is None && e
                    == ProgramError::BorshIoError,
            },
    {
        let layout = Layout { token: true, multisig: false, current: true };
        match StreamRecord::unpack(layout, data) {
            Ok(rec) => {
                proof {
                    crate::state::lemma_read_fits(layout, data@);
                }
                Ok(StreamToken::from_record(rec))
            },
            Err(e) => Err(e),
        }
    }
}

/// A native multisig stream in the legacy layout; also the request that creates one.
#[derive(Clone, Debug)]
pub struct EscrowMultisig {
    pub start_time: u64,
    pub end_time: u64,
    pub paused: u64,
    pub withdraw_limit: u64,
    pub amount: u64,
    pub sender: Pubkey,
    pub recipient: Pubkey,
    pub signed_by: Vec<WhiteList>,
    pub multisig_safe: Pubkey,
    pub can_cancel: bool,
}

impl EscrowMultisig {
    /// The layout of the cells of this type.
    pub open spec fn layout() -> Layout {
        Layout { token: false, multisig: true, current: false }
    }

    /// The value as a stream record.
    pub open spec fn record_view(&self) -> StreamRecordView {
        StreamRecordView {
            schedule: Schedule {
                start_time: self.start_time,
                end_time: self.end_time,
                paused: self.paused,
                withdraw_limit: self.withdraw_limit,
                amount: self.amount,
                withdrawn: 0,
                paused_at: 0,
            },
            sender: self.sender,
            recipient: self.recipient,
            token_mint: zero_key(),
            signed_by: self.signed_by@,
            multisig_safe: self.multisig_safe,
            can_cancel: self.can_cancel,
        }
    }

    /// The value as a stream record.
    pub fn to_record(&self) -> (r: StreamRecord)
        ensures
            r@ == self.record_view(),
    {
        let r = StreamRecord {
            schedule: Schedule {
                start_time: self.start_time,
                end_time: self.end_time,
                paused: self.paused,
                withdraw_limit: self.withdraw_limit,
                amount: self.amount,
                withdrawn: 0,
                paused_at: 0,
            },
            sender: self.sender,
            recipient: self.recipient,
            token_mint: zero_pubkey(),
            signed_by: copy_list(&self.signed_by),
            multisig_safe: self.multisig_safe,
            can_cancel: self.can_cancel,
        };
        assert(r@.signed_by =~= self.record_view().signed_by);
        r
    }

    /// The fields of a stream record that this layout stores.
    pub fn from_record(rec: StreamRecord) -> (r: EscrowMultisig)
        ensures
            rec@.fits(Self::layout()) ==> r.record_view() == rec@,
            record_bytes(Self::layout(), r.record_view()) == record_bytes(Self::layout(), rec@),
    {
        let r = EscrowMultisig {
            start_time: rec.schedule.start_time,
            end_time: rec.schedule.end_time,
            paused: rec.schedule.paused,
            withdraw_limit: rec.schedule.withdraw_limit,
            amount: rec.schedule.amount,
            sender: rec.sender,
            recipient: rec.recipient,
            signed_by: rec.signed_by,
            multisig_safe: rec.multisig_safe,
            can_cancel: rec.can_cancel,
        };
        assert(rec@.fits(Self::layout()) ==> r.record_view().signed_by =~= rec@.signed_by);
        r
    }

    /// What the stream has released at `now`: nothing up to its start, its
    /// whole amount from its end on, and in between the share of the
    /// elapsed time, rounded down.
    pub fn allowed_amt(&self, now: u64) -> (r: u64)
        ensures
            r == released(self.start_time, self.end_time, self.amount, now),
            r <= self.amount,
    {
        release_at(self.start_time, self.end_time, self.amount, now)
    }

    /// Writes the value in its layout.
    pub fn pack(&self) -> (r: Result<Vec<u8>, ProgramError>)
        ensures
            match r {
                Ok(bytes) => bytes@ == record_bytes(Self::layout(), self.record_view()),
                Err(e) => self.record_view().signed_by.len() > u32::MAX && e
                    == ProgramError::BorshIoError,
            },
    {
        self.to_record().pack(Layout { token: false, multisig: true, current: false })
    }

    /// Reads the value that a cell holds.
    pub fn unpack(data: &[u8]) -> (r: Result<EscrowMultisig, ProgramError>)
        ensures
            match r {
                Ok(value) => record_of(Self::layout(), data@) == Some(value.record_view()),
                Err(e) => record_of(Self::layout(), data@) is None && e
                    == ProgramError::BorshIoError,
            },
    {
        let layout = Layout { token: false, multisig: true, current: false };
        match StreamRecord::unpack(layout, data) {
            Ok(rec) => {
                proof {
                    crate::state::lemma_read_fits(layout, data@);
                }
                Ok(EscrowMultisig::from_record(rec))
            },
            Err(e) => Err(e),
        }
    }

    /// Reads the value that the cell of an account holds.
    pub fn from_account(account: &AccountInfo) -> (r: Result<EscrowMultisig, ProgramError>)
        ensures
            match r {
                Ok(value) => record_of(Self::layout(), account.data@) == Some(value.record_view()),
                Err(e) => record_of(Self::layout(), account.data@) is None && e
                    == ProgramError::BorshIoError,
            },
    {
        EscrowMultisig::unpack(account.data.as_slice())
    }
}

/// A native multisig stream.
#[derive(Clone, Debug)]
pub struct StreamMultisig {
    pub start_time: u64,
    pub end_time: u64,
    pub paused: u64,
    pub withdraw_limit: u64,
    pub amount: u64,
    pub sender: Pubkey,
    pub recipient: Pubkey,
    pub signed_by: Vec<WhiteList>,
    pub multisig_safe: Pubkey,
    pub can_cancel: bool,
    pub withdrawn: u64,
    pub paused_at: u64,
}

impl StreamMultisig {
    /// The layout of the cells of this type.
    pub open spec fn layout() -> Layout {
        Layout { token: false, multisig: true, current: true }
    }

    /// The value as a stream record.
    pub open spec fn record_view(&self) -> StreamRecordView {
        StreamRecordView {
            schedule: Schedule {
                start_time: self.start_time,
                end_time: self.end_time,
                paused: self.paused,
                withdraw_limit: self.withdraw_limit,
                amount: self.amount,
                withdrawn: self.withdrawn,
                paused_at: self.paused_at,
            },
            sender: self.sender,
            recipient: self.recipient,
            token_mint: zero_key(),
            signed_by: self.signed_by@,
            multisig_safe: self.multisig_safe,
            can_cancel: self.can_cancel,
        }
    }

    /// The value as a stream record.
    pub fn to_record(&self) -> (r: StreamRecord)
        ensures
            r@ == self.record_view(),
    {
        let r = StreamRecord {
            schedule: Schedule {
                start_time: self.start_time,
                end_time: self.end_time,
                paused: self.paused,
                withdraw_limit: self.withdraw_limit,
                amount: self.amount,
                withdrawn: self.withdrawn,
                paused_at: self.paused_at,
            },
            sender: self.sender,
            recipient: self.recipient,
            token_mint: zero_pubkey(),
            signed_by: copy_list(&self.signed_by),
            multisig_safe: self.multisig_safe,
            can_cancel: self.can_cancel,
        };
        assert(r@.signed_by =~= self.record_view().signed_by);
        r
    }

    /// The fields of a stream record that this layout stores.
    pub fn from_record(rec: StreamRecord) -> (r: StreamMultisig)
        ensures
            rec@.fits(Self::layout()) ==> r.record_view() == rec@,
            record_bytes(Self::layout(), r.record_view()) == record_bytes(Self::layout(), rec@),
    {
        let r = StreamMultisig {
            start_time: rec.schedule.start_time,
            end_time: rec.schedule.end_time,
            paused: rec.schedule.paused,
            withdraw_limit: rec.schedule.withdraw_limit,
            amount: rec.schedule.amount,
            sender: rec.sender,
            recipient: rec.recipient,
            signed_by: rec.signed_by,
            multisig_safe: rec.multisig_safe,
            can_cancel: rec.can_cancel,
            withdrawn: rec.schedule.withdrawn,
            paused_at: rec.schedule.paused_at,
        };
        assert(rec@.fits(Self::layout()) ==> r.record_view().signed_by =~= rec@.signed_by);
        r
    }

    /// What the stream has released at `now`: nothing up to its start, its
    /// whole amount from its end on, and in between the share of the
    /// elapsed time, rounded down.
    pub fn allowed_amt(&self, now: u64) -> (r: u64)
        ensures
            r == released(self.start_time, self.end_time, self.amount, now),
            r <= self.amount,
    {
        release_at(self.start_time, self.end_time, self.amount, now)
    }

    /// Writes the value in its layout.
    pub fn pack(&self) -> (r: Result<Vec<u8>, ProgramError>)
        ensures
            match r {
                Ok(bytes) => bytes@ == record_bytes(Self::layout(), self.record_view()),
                Err(e) => self.record_view().signed_by.len() > u32::MAX && e
                    == ProgramError::BorshIoError,
            },
    {
        self.to_record().pack(Layout { token: false, multisig: true, current: true })
    }

    /// Reads the value that a cell holds.
    pub fn unpack(data: &[u8]) -> (r: Result<StreamMultisig, ProgramError>)
        ensures
            match r {
                Ok(value) => record_of(Self::layout(), data@) == Some(value.record_view()),
                Err(e) => record_of(Self::layout(), data@) is None && e
                    == ProgramError::BorshIoError,
            },
    {
        let layout = Layout { token: false, multisig: true, current: true };
        match StreamRecord::unpack(layout, data) {
            Ok(rec) => {
                proof {
                    crate::state::lemma_read_fits(layout, data@);
                }
                Ok(StreamMultisig::from_record(rec))
            },
            Err(e) => Err(e),
        }
    }

    /// Reads the value that the cell of an account holds.
    pub fn from_account(account: &AccountInfo) -> (r: Result<StreamMultisig, ProgramError>)
        ensures
            match r {
                Ok(value) => record_of(Self::layout(), account.data@) == Some(value.record_view()),
                Err(e) => record_of(Self::layout(), account.data@) is None && e
                    == ProgramError::BorshIoError,
            },
    {
        StreamMultisig::unpack(account.data.as_slice())
    }
}

/// A token multisig stream in the legacy layout; also the request that creates one.
#[derive(Clone, Debug)]
pub struct TokenEscrowMultisig {
    pub start_time: u64,
    pub end_time: u64,
    pub paused: u64,
    pub withdraw_limit: u64,
    pub amount: u64,
    pub sender: Pubkey,
    pub recipient: Pubkey,
    pub token_mint: Pubkey,
    pub signed_by: Vec<WhiteList>,
    pub multisig_safe: Pubkey,
    pub can_cancel: bool,
}

impl TokenEscrowMultisig {
    /// The layout of the cells of this type.
    pub open spec fn layout() -> Layout {
        Layout { token: true, multisig: true, current: false }
    }

    /// The value as a stream record.
    pub open spec fn record_view(&self) -> StreamRecordView {
        StreamRecordView {
            schedule: Schedule {
                start_time: self.start_time,
                end_time: self.end_time,
                paused: self.paused,
                withdraw_limit: self.withdraw_limit,
                amount: self.amount,
                withdrawn: 0,
                paused_at: 0,
            },
            sender: self.sender,
            recipient: self.recipient,
            token_mint: self.token_mint,
            signed_by: self.signed_by@,
            multisig_safe: self.multisig_safe,
            can_cancel: self.can_cancel,
        }
    }

    /// The value as a stream record.
    pub fn to_record(&self) -> (r: StreamRecord)
        ensures
            r@ == self.record_view(),
    {
        let r = StreamRecord {
            schedule: Schedule {
                start_time: self.start_time,
                end_time: self.end_time,
                paused: self.paused,
                withdraw_limit: self.withdraw_limit,
                amount: self.amount,
                withdrawn: 0,
                paused_at: 0,
            },
            sender: self.sender,
            recipient: self.recipient,
            token_mint: self.token_mint,
            signed_by: copy_list(&self.signed_by),
            multisig_safe: self.multisig_safe,
            can_cancel: self.can_cancel,
        };
        assert(r@.signed_by =~= self.record_view().signed_by);
        r
    }

    /// The fields of a stream record that this layout stores.
    pub fn from_record(rec: StreamRecord) -> (r: TokenEscrowMultisig)
        ensures
            rec@.fits(Self::layout()) ==> r.record_view() == rec@,
            record_bytes(Self::layout(), r.record_view()) == record_bytes(Self::layout(), rec@),
    {
        let r = TokenEscrowMultisig {
            start_time: rec.schedule.start_time,
            end_time: rec.schedule.end_time,
            paused: rec.schedule.paused,
            withdraw_limit: rec.schedule.withdraw_limit,
            amount: rec.schedule.amount,
            sender: rec.sender,
            recipient: rec.recipient,
            token_mint: rec.token_mint,
            signed_by: rec.signed_by,
            multisig_safe: rec.multisig_safe,
            can_cancel: rec.can_cancel,
        };
        assert(rec@.fits(Self::layout()) ==> r.record_view().signed_by =~= rec@.signed_by);
        r
    }

    /// What the stream has released at `now`: nothing up to its start, its
    /// whole amount from its end on, and in between the share of the
    /// elapsed time, rounded down.
    pub fn allowed_amt(&self, now: u64) -> (r: u64)
        ensures
            r == released(self.start_time, self.end_time, self.amount, now),
            r <= self.amount,
    {
        release_at(self.start_time, self.end_time, self.amount, now)
    }

    /// Writes the value in its layout.
    pub fn pack(&self) -> (r: Result<Vec<u8>, ProgramError>)
        ensures
            match r {
                Ok(bytes) => bytes@ == record_bytes(Self::layout(), self.record_view()),
                Err(e) => self.record_view().signed_by.len() > u32::MAX && e
                    == ProgramError::BorshIoError,
            },
    {
        self.to_record().pack(Layout { token: true, multisig: true, current: false })
    }

    /// Reads the value that a cell holds.
    pub fn unpack(data: &[u8]) -> (r: Result<TokenEscrowMultisig, ProgramError>)
        ensures
            match r {
                Ok(value) => record_of(Self::layout(), data@) == Some(value.record_view()),
                Err(e) => record_of(Self::layout(), data@) is None && e
                    == ProgramError::BorshIoError,
            },
    {
        let layout = Layout { token: true, multisig: true, current: false };
        match StreamRecord::unpack(layout, data) {
            Ok(rec) => {
                proof {
                    crate::state::lemma_read_fits(layout, data@);
                }
                Ok(TokenEscrowMultisig::from_record(rec))
            },
            Err(e) => Err(e),
        }
    }

    /// Reads the value that the cell of an account holds.
    pub fn from_account(account: &AccountInfo) -> (r: Result<TokenEscrowMultisig, ProgramError>)
        ensures
            match r {
                Ok(value) => record_of(Self::layout(), account.data@) == Some(value.record_view()),
                Err(e) => record_of(Self::layout(), account.data@) is None && e
                    == ProgramError::BorshIoError,
            },
    {
        TokenEscrowMultisig::unpack(account.data.as_slice())
    }
}

/// A token multisig stream.
#[derive(Clone, Debug)]
pub struct TokenStreamMultisig {
    pub start_time: u64,
    pub end_time: u64,
    pub paused: u64,
    pub withdraw_limit: u64,
    pub amount: u64,
    pub sender: Pubkey,
    pub recipient: Pubkey,
    pub token_mint: Pubkey,
    pub signed_by: Vec<WhiteList>,
    pub multisig_safe: Pubkey,
    pub can_cancel: bool,
    pub withdrawn: u64,
    pub paused_at: u64,
}

impl TokenStreamMultisig {
    /// The layout of the cells of this type.
    pub open spec fn layout() -> Layout {
        Layout { token: true, multisig: true, current: true }
    }

    /// The value as a stream record.
    pub open spec fn record_view(&self) -> StreamRecordView {
        StreamRecordView {
            schedule: Schedule {
                start_time: self.start_time,
                end_time: self.end_time,
                paused: self.paused,
                withdraw_limit: self.withdraw_limit,
                amount: self.amount,
                withdrawn: self.withdrawn,
                paused_at: self.paused_at,
            },
            sender: self.sender,
            recipient: self.recipient,
            token_mint: self.token_mint,
            signed_by: self.signed_by@,
            multisig_safe: self.multisig_safe,
            can_cancel: self.can_cancel,
        }
    }

    /// The value as a stream record.
    pub fn to_record(&self) -> (r: StreamRecord)
        ensures
            r@ == self.record_view(),
    {
        let r = StreamRecord {
            schedule: Schedule {
                start_time: self.start_time,
                end_time: self.end_time,
                paused: self.paused,
                withdraw_limit: self.withdraw_limit,
                amount: self.amount,
                withdrawn: self.withdrawn,
                paused_at: self.paused_at,
            },
            sender: self.sender,
            recipient: self.recipient,
            token_mint: self.token_mint,
            signed_by: copy_list(&self.signed_by),
            multisig_safe: self.multisig_safe,
            can_cancel: self.can_cancel,
        };
        assert(r@.signed_by =~= self.record_view().signed_by);
        r
    }

    /// The fields of a stream record that this layout stores.
    pub fn from_record(rec: StreamRecord) -> (r: TokenStreamMultisig)
        ensures
            rec@.fits(Self::layout()) ==> r.record_view() == rec@,
            record_bytes(Self::layout(), r.record_view()) == record_bytes(Self::layout(), rec@),
    {
        let r = TokenStreamMultisig {
            start_time: rec.schedule.start_time,
            end_time: rec.schedule.end_time,
            paused: rec.schedule.paused,
            withdraw_limit: rec.schedule.withdraw_limit,
            amount: rec.schedule.amount,
            sender: rec.sender,
            recipient: rec.recipient,
            token_mint: rec.token_mint,
            signed_by: rec.signed_by,
            multisig_safe: rec.multisig_safe,
            can_cancel: rec.can_cancel,
            withdrawn: rec.schedule.withdrawn,
            paused_at: rec.schedule.paused_at,
        };
        assert(rec@.fits(Self::layout()) ==> r.record_view().signed_by =~= rec@.signed_by);
        r
    }

    /// What the stream has released at `now`: nothing up to its start, its
    /// whole amount from its end on, and in between the share of the
    /// elapsed time, rounded down.
    pub fn allowed_amt(&self, now: u64) -> (r: u64)
        ensures
            r == released(self.start_time, self.end_time, self.amount, now),
            r <= self.amount,
    {
        release_at(self.start_time, self.end_time, self.amount, now)
    }

    /// Writes the value in its layout.
    pub fn pack(&self) -> (r: Result<Vec<u8>, ProgramError>)
        ensures
            match r {
                Ok(bytes) => bytes@ == record_bytes(Self::layout(), self.record_view()),
                Err(e) => self.record_view().signed_by.len() > u32::MAX && e
                    == ProgramError::BorshIoError,
            },
    {
        self.to_record().pack(Layout { token: true, multisig: true, current: true })
    }

    /// Reads the value that a cell holds.
    pub fn unpack(data: &[u8]) -> (r: Result<TokenStreamMultisig, ProgramError>)
        ensures
            match r {
                Ok(value) => record_of(Self::layout(), data@) == Some(value.record_view()),
                Err(e) => record_of(Self::layout(), data@) is None && e
                    == ProgramError::BorshIoError,
            },
    {
        let layout = Layout { token: true, multisig: true, current: true };
        match StreamRecord::unpack(layout, data) {
            Ok(rec) => {
                proof {
                    crate::state::lemma_read_fits(layout, data@);
                }
                Ok(TokenStreamMultisig::from_record(rec))
            },
            Err(e) => Err(e),
        }
    }

    /// Reads the value that the cell of an account holds.
    pub fn from_account(account: &AccountInfo) -> (r: Result<TokenStreamMultisig, ProgramError>)
        ensures
            match r {
                Ok(value) => record_of(Self::layout(), account.data@) == Some(value.record_view()),
                Err(e) => record_of(Self::layout(), account.data@) is None && e
                    == ProgramError::BorshIoError,
            },
    {
        TokenStreamMultisig::unpack(account.data.as_slice())
    }
}

/// A record that was read from a cell of a layout stores nothing that the
/// layout has no field for.
pub proof fn lemma_read_fits(layout: Layout, data: Seq<u8>)
    ensures
        record_of(layout, data) matches Some(rec) ==> rec.fits(layout),
{
}

/// A transfer proposal of lamports.
#[derive(Clone, Debug)]
pub struct SolTransfer {
    pub sender: Pubkey,
    pub recipient: Pubkey,
    pub signed_by: Vec<WhiteList>,
    pub multisig_safe: Pubkey,
    pub amount: u64,
}

impl SolTransfer {
    /// The value as a transfer proposal.
    pub open spec fn proposal_view(&self) -> TransferProposalView {
        TransferProposalView {
            sender: self.sender,
            recipient: self.recipient,
            signed_by: self.signed_by@,
            multisig_safe: self.multisig_safe,
            amount: self.amount,
            token_mint: zero_key(),
        }
    }

    /// The value as a transfer proposal.
    pub fn to_proposal(&self) -> (r: TransferProposal)
        ensures
            r@ == self.proposal_view(),
    {
        TransferProposal {
            sender: self.sender,
            recipient: self.recipient,
            signed_by: copy_list(&self.signed_by),
            multisig_safe: self.multisig_safe,
            amount: self.amount,
            token_mint: zero_pubkey(),
        }
    }

    /// The fields of a transfer proposal that this kind stores.
    pub fn from_proposal(p: TransferProposal) -> (r: SolTransfer)
        ensures
            r.proposal_view() == (TransferProposalView { token_mint: zero_key(), ..p@ }),
    {
        SolTransfer {
            sender: p.sender,
            recipient: p.recipient,
            signed_by: p.signed_by,
            multisig_safe: p.multisig_safe,
            amount: p.amount,
        }
    }

    /// Writes the proposal.
    pub fn pack(&self) -> (r: Result<Vec<u8>, ProgramError>)
        ensures
            match r {
                Ok(bytes) => bytes@ == proposal_bytes(false, self.proposal_view()),
                Err(e) => self.signed_by@.len() > u32::MAX && e == ProgramError::BorshIoError,
            },
    {
        self.to_proposal().pack(false)
    }

    /// Reads the proposal that the cell of an account holds.
    pub fn from_account(account: &AccountInfo) -> (r: Result<SolTransfer, ProgramError>)
        ensures
            match r {
                Ok(value) => proposal_of(false, account.data@) == Some(value.proposal_view()),
                Err(e) => proposal_of(false, account.data@) is None && e
                    == ProgramError::BorshIoError,
            },
    {
        match TransferProposal::unpack(false, account.data.as_slice()) {
            Ok(p) => Ok(SolTransfer::from_proposal(p)),
            Err(e) => Err(e),
        }
    }
}

/// A transfer proposal of tokens.
#[derive(Clone, Debug)]
pub struct TokenTransfer {
    pub sender: Pubkey,
    pub recipient: Pubkey,
    pub signed_by: Vec<WhiteList>,
    pub multisig_safe: Pubkey,
    pub amount: u64,
    pub token_mint: Pubkey,
}

impl TokenTransfer {
    /// The value as a transfer proposal.
    pub open spec fn proposal_view(&self) -> TransferProposalView {
        TransferProposalView {
            sender: self.sender,
            recipient: self.recipient,
            signed_by: self.signed_by@,
            multisig_safe: self.multisig_safe,
            amount: self.amount,
            token_mint: self.token_mint,
        }
    }

    /// The value as a transfer proposal.
    pub fn to_proposal(&self) -> (r: TransferProposal)
        ensures
            r@ == self.proposal_view(),
    {
        TransferProposal {
            sender: self.sender,
            recipient: self.recipient,
            signed_by: copy_list(&self.signed_by),
            multisig_safe: self.multisig_safe,
            amount: self.amount,
            token_mint: self.token_mint,
        }
    }

    /// The fields of a transfer proposal that this kind stores.
    pub fn from_proposal(p: TransferProposal) -> (r: TokenTransfer)
        ensures
            r.proposal_view() == p@,
    {
        TokenTransfer {
            sender: p.sender,
            recipient: p.recipient,
            signed_by: p.signed_by,
            multisig_safe: p.multisig_safe,
            amount: p.amount,
            token_mint: p.token_mint,
        }
    }

    /// Writes the proposal.
    pub fn pack(&self) -> (r: Result<Vec<u8>, ProgramError>)
        ensures
            match r {
                Ok(bytes) => bytes@ == proposal_bytes(true, self.proposal_view()),
                Err(e) => self.signed_by@.len() > u32::MAX && e == ProgramError::BorshIoError,
            },
    {
        self.to_proposal().pack(true)
    }

    /// Reads the proposal that the cell of an account holds.
    pub fn from_account(account: &AccountInfo) -> (r: Result<TokenTransfer, ProgramError>)
        ensures
            match r {
                Ok(value) => proposal_of(true, account.data@) == Some(value.proposal_view()),
                Err(e) => proposal_of(true, account.data@) is None && e
                    == ProgramError::BorshIoError,
            },
    {
        match TransferProposal::unpack(true, account.data.as_slice()) {
            Ok(p) => Ok(TokenTransfer::from_proposal(p)),
            Err(e) => Err(e),
        }
    }
}

} // verus!
