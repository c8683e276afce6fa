//! The submission of one transaction, as a machine that says what to ask of the
//! network next.
//!
//! The caller performs each action and hands back what happened. The recency token is
//! fetched right before signing, the transaction is sent once and never again, and
//! the wait for its confirmation ends after a fixed number of polls.

use crate::address::TransactionId;
use crate::blockchain::Receipt;
use crate::error::AppError;
use vstd::prelude::*;
use vstd::string::*;

verus! {

/// The number of polls after which a wait for confirmation is given up, for callers
/// that have no reason to choose another.
pub const CONFIRMATION_POLLS: u32 = 120;

/// The reference to the most recent block, which keeps a transaction from being
/// rejected as stale.
#[derive(Clone, Copy, Debug)]
pub struct Blockhash {
    pub bytes: [u8; 32],
}

impl View for Blockhash {
    type V = Seq<u8>;

    open spec fn view(&self) -> Seq<u8> {
        self.bytes@
    }
}

/// What a poll says of a transaction that was sent.
#[derive(Debug)]
pub enum Observation {
    /// The network has not confirmed it yet.
    Pending,
    /// The network confirmed it, at this block height where it is known.
    Confirmed { slot: Option<u64> },
    /// The network ran it and it failed.
    Failed(String),
}

/// What happened when the caller did what it was asked to do.
#[derive(Debug)]
pub enum Event {
    /// The recency token was fetched.
    Blockhash(Blockhash),
    /// The transaction was signed and sent; this is its identifier.
    Sent(TransactionId),
    /// The network was polled.
    Polled(Observation),
    /// The call failed.
    Failure(String),
}

/// What the caller is asked to do next.
#[derive(Debug)]
pub enum Action {
    /// Fetch the recency token.
    FetchBlockhash,
    /// Sign the transaction with this recency token and send it.
    SignAndSend { blockhash: Blockhash },
    /// Ask the network for the status of this transaction.
    Poll { signature: TransactionId },
    /// Stop: the submission ended with this outcome.
    Finish(Result<Receipt, AppError>),
}

/// Where a submission stands.
#[derive(Debug)]
pub enum Submitter {
    /// The recency token was asked for; `polls` polls will be allowed.
    AwaitingBlockhash { polls: u32 },
    /// The transaction was handed over to be signed and sent.
    AwaitingBroadcast { polls: u32 },
    /// The transaction was sent; `polls_left` polls are still allowed, at least one.
    AwaitingConfirmation { signature: TransactionId, polls_left: u32 },
    /// The submission ended.
    Finished,
}

impl Action {
    /// Whether the action ends the submission with a transport failure of this detail.
    pub open spec fn fails_with(self, detail: Seq<char>) -> bool {
        self matches Action::Finish(Err(e)) && e.is_transport(detail)
    }

    /// Whether the action ends the submission because the caller broke the protocol.
    pub open spec fn is_protocol_failure(self) -> bool {
        self matches Action::Finish(Err(e)) && e.is_internal("Unexpected event"@)
    }
}

impl Submitter {
    /// An upper bound on the number of steps that are still to come.
    pub open spec fn steps_left(self) -> int {
        match self {
            Submitter::AwaitingBlockhash { polls } => polls + 3,
            Submitter::AwaitingBroadcast { polls } => polls + 2,
            Submitter::AwaitingConfirmation { polls_left, .. } => polls_left + 1,
            Submitter::Finished => 0,
        }
    }

    /// Whether the state is one that the machine reaches.
    pub open spec fn reachable(self) -> bool {
        self matches Submitter::AwaitingConfirmation { polls_left, .. } ==> polls_left >= 1
    }

    /// Starts a submission that allows `polls` polls for the confirmation. The first
    /// thing to do is to fetch the recency token.
    pub fn begin(polls: u32) -> (started: (Submitter, Action))
        ensures
            started.0 == (Submitter::AwaitingBlockhash { polls }),
            started.1 is FetchBlockhash,
    {
        (Submitter::AwaitingBlockhash { polls }, Action::FetchBlockhash)
    }

    /// Takes what happened and says what to do next.
    ///
    /// A call that failed ends the submission with a transport failure, whatever was
    /// asked for: nothing is tried again. So does a wait that has used up its polls.
    /// An event that does not answer the action asked for ends it with an internal
    /// failure.
    pub fn step(self, event: Event) -> (next: (Submitter, Action))
        ensures
            match (self, event) {
                (Submitter::AwaitingBlockhash { polls }, Event::Blockhash(hash)) => {
                    &&& next.0 == (Submitter::AwaitingBroadcast { polls })
                    &&& next.1 matches Action::SignAndSend { blockhash } && blockhash@ == hash@
                },
                (Submitter::AwaitingBroadcast { polls }, Event::Sent(id)) => if polls == 0 {
                    next.0 is Finished && next.1.fails_with("Confirmation timed out"@)
                } else {
                    &&& next.0 matches Submitter::AwaitingConfirmation { signature, polls_left }
                        && signature@ == id@ && polls_left == polls
                    &&& next.1 matches Action::Poll { signature } && signature@ == id@
                },
                (
                    Submitter::AwaitingConfirmation { signature, polls_left },
                    Event::Polled(Observation::Confirmed { slot }),
                ) => {
                    &&& next.0 is Finished
                    &&& next.1 matches Action::Finish(Ok(receipt)) && receipt.signature@
                        == signature@ && receipt.slot == slot
                },
                (
                    Submitter::AwaitingConfirmation { .. },
                    Event::Polled(Observation::Failed(detail)),
                ) => next.0 is Finished && next.1.fails_with(detail@),
                (
                    Submitter::AwaitingConfirmation { signature, polls_left },
                    Event::Polled(Observation::Pending),
                ) => if polls_left > 1 {
                    &&& next.0 matches Submitter::AwaitingConfirmation {
                        signature: same,
                        polls_left: fewer,
                    } && same@ == signature@ && fewer == polls_left - 1
                    &&& next.1 matches Action::Poll { signature: same } && same@ == signature@
                } else {
                    next.0 is Finished && next.1.fails_with("Confirmation timed out"@)
                },
                (Submitter::Finished, _) => next.0 is Finished && next.1.is_protocol_failure(),
                (_, Event::Failure(detail)) => next.0 is Finished && next.1.fails_with(detail@),
                _ => next.0 is Finished && next.1.is_protocol_failure(),
            },
            next.1 is SignAndSend <==> self is AwaitingBlockhash && event is Blockhash,
            !(next.0 is AwaitingBlockhash),
            next.1 is Finish <==> next.0 is Finished,
            self.reachable() ==> next.0.reachable(),
            self.reachable() && !(self is Finished) ==> next.0.steps_left() < self.steps_left(),
    {
        match self {
            Submitter::AwaitingBlockhash { polls } => match event {
                Event::Blockhash(blockhash) => (
                    Submitter::AwaitingBroadcast { polls },
                    Action::SignAndSend { blockhash },
                ),
                Event::Failure(detail) => failed(detail),
                _ => unexpected(),
            },
            Submitter::AwaitingBroadcast { polls } => match event {
                Event::Sent(signature) => {
                    if polls == 0 {
                        timed_out()
                    } else {
                        (
                            Submitter::AwaitingConfirmation { signature, polls_left: polls },
                            Action::Poll { signature },
                        )
                    }
                },
                Event::Failure(detail) => failed(detail),
                _ => unexpected(),
            },
            Submitter::AwaitingConfirmation { signature, polls_left } => match event {
                Event::Polled(Observation::Confirmed { slot }) => (
                    Submitter::Finished,
                    Action::Finish(Ok(Receipt { signature, slot })),
                ),
                Event::Polled(Observation::Failed(detail)) => failed(detail),
                Event::Polled(Observation::Pending) => {
                    if polls_left > 1 {
                        (
                            Submitter::AwaitingConfirmation {
                                signature,
                                polls_left: polls_left - 1,
                            },
                            Action::Poll { signature },
                        )
                    } else {
                        timed_out()
                    }
                },
                Event::Failure(detail) => failed(detail),
                _ => unexpected(),
            },
            Submitter::Finished => unexpected(),
        }
    }
}

/// The end of a submission whose last call failed.
fn failed(detail: String) -> (next: (Submitter, Action))
    ensures
        next.0 is Finished,
        next.1.fails_with(detail@),
{
    (Submitter::Finished, Action::Finish(Err(AppError::Solana(detail))))
}

/// The end of a submission whose wait used up its polls.
fn timed_out() -> (next: (Submitter, Action))
    ensures
        next.0 is Finished,
        next.1.fails_with("Confirmation timed out"@),
{
    failed(String::from_str("Confirmation timed out"))
}

/// The end of a submission whose caller broke the protocol.
fn unexpected() -> (next: (Submitter, Action))
    ensures
        next.0 is Finished,
        next.1.is_protocol_failure(),
{
    (
        Submitter::Finished,
        Action::Finish(Err(AppError::Internal(String::from_str("Unexpected event")))),
    )
}

} // verus!
