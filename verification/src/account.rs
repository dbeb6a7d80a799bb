//! The account set that comes with a request, and what a handler asks the
//! host to carry out in answer to it.

use crate::error::PrizeError;
use crate::pubkey::{seeds_view, Address};
use crate::state::RECORD_SLOT_LEN;
use vstd::prelude::*;

verus! {

/// What a handler reads of one account supplied with a request.
#[derive(Clone, Debug, PartialEq, Eq)]
pub struct Account {
    pub key: Address,
    /// The program that owns the account.
    pub owner: Address,
    /// Whether the account's signature is on the request.
    pub is_signer: bool,
    /// The native balance of the account.
    pub lamports: u64,
    pub data: Vec<u8>,
}

/// One account of a call to another program.
#[derive(Clone, Copy, Debug, PartialEq, Eq)]
pub struct AccountMeta {
    pub pubkey: Address,
    pub is_signer: bool,
    pub is_writable: bool,
}

/// A call to another program: the program, the accounts it works on and the
/// data it interprets.
#[derive(Clone, Debug, PartialEq, Eq)]
pub struct Instruction {
    pub program_id: Address,
    pub accounts: Vec<AccountMeta>,
    pub data: Vec<u8>,
}

/// The model of an [`Instruction`].
#[verifier::ext_equal]
pub struct InstructionView {
    pub program_id: Address,
    pub accounts: Seq<AccountMeta>,
    pub data: Seq<u8>,
}

impl View for Instruction {
    type V = InstructionView;

    open spec fn view(&self) -> InstructionView {
        InstructionView { program_id: self.program_id, accounts: self.accounts@, data: self.data@ }
    }
}

/// A call that the host is to make on behalf of the program.
#[derive(Clone, Debug, PartialEq, Eq)]
pub struct Invocation {
    pub instruction: Instruction,
    /// Positions, in the request's account list, of the accounts handed to
    /// the call.
    pub accounts: Vec<usize>,
    /// Seeds of the derived address with which the program signs the call;
    /// empty where a party's signature on the request is all the call needs.
    pub signer_seeds: Vec<Vec<u8>>,
}

/// The model of an [`Invocation`].
#[verifier::ext_equal]
pub struct InvocationView {
    pub instruction: InstructionView,
    pub accounts: Seq<usize>,
    pub signer_seeds: Seq<Seq<u8>>,
}

impl View for Invocation {
    type V = InvocationView;

    open spec fn view(&self) -> InvocationView {
        InvocationView {
            instruction: self.instruction@,
            accounts: self.accounts@,
            signer_seeds: seeds_view(self.signer_seeds@),
        }
    }
}

/// Native balance that moves between two accounts of the request, given by
/// their positions in its account list.
#[derive(Clone, Copy, Debug, PartialEq, Eq, Structural)]
pub struct LamportTransfer {
    pub from: usize,
    pub to: usize,
    pub amount: u64,
}

/// An encoded record to be stored at the start of an account's data.
#[derive(Clone, Debug, PartialEq, Eq)]
pub struct RecordWrite {
    /// Position of the account in the request's account list.
    pub account: usize,
    pub data: Vec<u8>,
}

/// The model of a [`RecordWrite`].
#[verifier::ext_equal]
pub struct RecordWriteView {
    pub account: usize,
    pub data: Seq<u8>,
}

impl View for RecordWrite {
    type V = RecordWriteView;

    open spec fn view(&self) -> RecordWriteView {
        RecordWriteView { account: self.account, data: self.data@ }
    }
}

/// What an accepted request commits. The host makes the calls in order,
/// then moves the balance, then stores the record; if any step fails it
/// discards them all.
#[derive(Clone, Debug, PartialEq, Eq)]
pub struct Commit {
    pub invocations: Vec<Invocation>,
    pub transfer: Option<LamportTransfer>,
    pub write: Option<RecordWrite>,
}

/// The model of a [`Commit`].
#[verifier::ext_equal]
pub struct CommitView {
    pub invocations: Seq<InvocationView>,
    pub transfer: Option<LamportTransfer>,
    pub write: Option<RecordWriteView>,
}

impl View for Commit {
    type V = CommitView;

    open spec fn view(&self) -> CommitView {
        CommitView {
            invocations: Seq::new(self.invocations@.len(), |i: int| self.invocations@[i]@),
            transfer: self.transfer,
            write: match self.write {
                Some(write) => Some(write@),
                None => None,
            },
        }
    }
}

/// Whether a handler's answer is the given outcome.
pub open spec fn answers(
    answer: Result<Commit, PrizeError>,
    outcome: Result<CommitView, PrizeError>,
) -> bool {
    match answer {
        Ok(commit) => outcome == Ok::<CommitView, PrizeError>(commit@),
        Err(e) => outcome == Err::<CommitView, PrizeError>(e),
    }
}

/// The outcome of a request: its rejection where it has one, else its commit.
pub open spec fn outcome_of(rejection: Option<PrizeError>, commit: CommitView) -> Result<
    CommitView,
    PrizeError,
> {
    match rejection {
        Some(e) => Err(e),
        None => Ok(commit),
    }
}

/// Whether the host can carry out a commit on the accounts of the request:
/// every position names an account of the request, the balance that is to
/// leave an account is there and fits where it arrives, and the record fits
/// its slot, which has 1000 bytes where the account is yet to be created.
pub open spec fn can_be_carried_out(commit: CommitView, accounts: Seq<Account>) -> bool {
    &&& forall|i: int, j: int|
        0 <= i < commit.invocations.len() && 0 <= j < commit.invocations[i].accounts.len()
            ==> #[trigger] commit.invocations[i].accounts[j] < accounts.len()
    &&& commit.transfer matches Some(transfer) ==> {
        &&& transfer.from < accounts.len()
        &&& transfer.to < accounts.len()
        &&& transfer.amount <= accounts[transfer.from as int].lamports
        &&& accounts[transfer.to as int].lamports + transfer.amount <= u64::MAX
    }
    &&& commit.write matches Some(write) ==> {
        &&& write.account < accounts.len()
        &&& write.data.len() <= if accounts[write.account as int].lamports == 0 {
            RECORD_SLOT_LEN as nat
        } else {
            accounts[write.account as int].data@.len()
        }
    }
}

} // verus!
