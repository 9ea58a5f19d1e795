use crate::felt::Felt;
use vstd::prelude::*;

verus! {

/// Overall time allowed for a transaction to reach a terminal status, in milliseconds.
pub const WAIT_FOR_TX_TIMEOUT_MS: u64 = 60_000;

/// What the node answered to one receipt query.
#[derive(Clone, Debug, PartialEq, Eq)]
pub enum ReceiptResponse {
    /// The node does not know the transaction hash (yet).
    NotFound,
    /// A receipt of a transaction that is not finalized; `revert_reason` is set
    /// when its execution already reverted.
    Pending { revert_reason: Option<String> },
    /// A receipt of a finalized transaction; `revert_reason` is set when its
    /// execution reverted.
    Finalized { revert_reason: Option<String> },
    /// Any other failure of the query.
    Failed { cause: String },
}

/// The state of one confirmation session.
#[derive(Clone, Debug, PartialEq, Eq)]
pub enum PollState {
    AwaitingVisibility,
    Pending,
    Succeeded,
    Reverted { reason: String },
    TimedOut,
    TransportError { cause: String },
}

/// What the driver does after a response has been taken in.
#[derive(Clone, Copy, Debug, PartialEq, Eq, Structural)]
pub enum PollAction {
    /// Wait the poll interval, then poll again.
    Sleep,
    /// The session has reached a terminal state.
    Stop,
}

/// Why a transaction was not confirmed.
#[derive(Clone, Debug, PartialEq, Eq)]
pub enum ConfirmationError {
    Reverted { tx_hash: Felt, reason: String },
    Timeout { tx_hash: Felt },
    Transport { tx_hash: Felt, cause: String },
}

pub open spec fn is_terminal(s: PollState) -> bool {
    !(s is AwaitingVisibility || s is Pending)
}

/// The state that a response leads to from any non-terminal state.
pub open spec fn state_after(r: ReceiptResponse) -> PollState {
    match r {
        ReceiptResponse::NotFound => PollState::AwaitingVisibility,
        ReceiptResponse::Pending { revert_reason } => match revert_reason {
            Some(reason) => PollState::Reverted { reason },
            None => PollState::Pending,
        },
        ReceiptResponse::Finalized { revert_reason } => match revert_reason {
            Some(reason) => PollState::Reverted { reason },
            None => PollState::Succeeded,
        },
        ReceiptResponse::Failed { cause } => PollState::TransportError { cause },
    }
}

/// The result a terminal state reports for the given transaction.
pub open spec fn outcome_of(tx_hash: Felt, s: PollState) -> Result<(), ConfirmationError> {
    match s {
        PollState::Reverted { reason } => Err(ConfirmationError::Reverted { tx_hash, reason }),
        PollState::TimedOut => Err(ConfirmationError::Timeout { tx_hash }),
        PollState::TransportError { cause } => Err(ConfirmationError::Transport { tx_hash, cause }),
        _ => Ok(()),
    }
}

/// The decisions of a session that waits for one transaction to be confirmed.
/// The driver queries the node and sleeps; the poller decides.
#[derive(Clone, Debug)]
pub struct ConfirmationPoller {
    pub tx_hash: Felt,
    pub timeout_ms: u64,
    pub state: PollState,
}

impl ConfirmationPoller {
    /// A session with the default overall timeout.
    pub fn new(tx_hash: Felt) -> (r: Self)
        ensures
            r.tx_hash == tx_hash,
            r.timeout_ms == WAIT_FOR_TX_TIMEOUT_MS,
            r.state == PollState::AwaitingVisibility,
    {
        ConfirmationPoller { tx_hash, timeout_ms: WAIT_FOR_TX_TIMEOUT_MS, state: PollState::AwaitingVisibility }
    }

    /// A session with the given overall timeout.
    pub fn with_timeout(tx_hash: Felt, timeout_ms: u64) -> (r: Self)
        ensures
            r.tx_hash == tx_hash,
            r.timeout_ms == timeout_ms,
            r.state == PollState::AwaitingVisibility,
    {
        ConfirmationPoller { tx_hash, timeout_ms, state: PollState::AwaitingVisibility }
    }

    pub fn is_done(&self) -> (r: bool)
        ensures
            r == is_terminal(self.state),
    {
        !(matches!(self.state, PollState::AwaitingVisibility) || matches!(self.state, PollState::Pending))
    }

    /// Called before each query with the time elapsed since the session began.
    /// Returns whether to query; once the timeout has elapsed the session is
    /// timed out instead.
    pub fn begin_poll(&mut self, elapsed_ms: u64) -> (r: bool)
        requires
            !is_terminal(old(self).state),
        ensures
            r == (elapsed_ms < old(self).timeout_ms),
            final(self).tx_hash == old(self).tx_hash,
            final(self).timeout_ms == old(self).timeout_ms,
            final(self).state == (if r { old(self).state } else { PollState::TimedOut }),
    {
        if elapsed_ms >= self.timeout_ms {
            self.state = PollState::TimedOut;
            false
        } else {
            true
        }
    }

    /// Takes in the node's answer to a receipt query.
    pub fn on_response(&mut self, response: ReceiptResponse) -> (r: PollAction)
        requires
            !is_terminal(old(self).state),
        ensures
            final(self).tx_hash == old(self).tx_hash,
            final(self).timeout_ms == old(self).timeout_ms,
            final(self).state == state_after(response),
            r == (if is_terminal(final(self).state) { PollAction::Stop } else { PollAction::Sleep }),
    {
        self.state = match response {
            ReceiptResponse::NotFound => PollState::AwaitingVisibility,
            ReceiptResponse::Pending { revert_reason } => match revert_reason {
                Some(reason) => PollState::Reverted { reason },
                None => PollState::Pending,
            },
            ReceiptResponse::Finalized { revert_reason } => match revert_reason {
                Some(reason) => PollState::Reverted { reason },
                None => PollState::Succeeded,
            },
            ReceiptResponse::Failed { cause } => PollState::TransportError { cause },
        };
        if self.is_done() {
            PollAction::Stop
        } else {
            PollAction::Sleep
        }
    }

    /// The result of a finished session: success, or why it failed.
    pub fn into_outcome(self) -> (r: Result<(), ConfirmationError>)
        requires
            is_terminal(self.state),
        ensures
            r == outcome_of(self.tx_hash, self.state),
    {
        let tx_hash = self.tx_hash;
        match self.state {
            PollState::Reverted { reason } => Err(ConfirmationError::Reverted { tx_hash, reason }),
            PollState::TimedOut => Err(ConfirmationError::Timeout { tx_hash }),
            PollState::TransportError { cause } => Err(ConfirmationError::Transport { tx_hash, cause }),
            _ => Ok(()),
        }
    }
}

} // verus!
