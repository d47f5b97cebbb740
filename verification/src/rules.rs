//! The rules of a session as functions on its model: when a session may be
//! created, when a vote is admitted, and what an admitted vote changes.

use vstd::prelude::*;
use crate::error::ErrorCode;
use crate::identity::Identity;
use crate::record::{label_fits, Session, Tally, MAX_ALLOW, MAX_LABELS, MAX_VOTERS};

verus! {

/// Why a session with these labels and this allow-list cannot be created, or
/// `None` where it can. Too many labels or an oversized label is reported
/// before an oversized allow-list.
pub open spec fn initialize_rejection(labels: Seq<Seq<char>>, allow_list: Seq<Identity>) -> Option<
    ErrorCode,
> {
    if labels.len() > MAX_LABELS || exists|i: int|
        0 <= i < labels.len() && !label_fits(#[trigger] labels[i]) {
        Some(ErrorCode::MaxLabelsExceeded)
    } else if allow_list.len() > MAX_ALLOW {
        Some(ErrorCode::MaxAllowExceeded)
    } else {
        None
    }
}

/// The text of the log line that reports a vote for the option `label`.
pub open spec fn vote_log_line(label: Seq<char>) -> Seq<char> {
    "Voted for: "@ + label
}

/// One attempt to vote: who votes, for which option, and what the clock
/// showed.
pub struct Ballot {
    pub voter: Identity,
    pub choice: nat,
    pub now: int,
}

impl Session {
    /// The session right after its creation: every label with a tally of
    /// zero, in the order given, and nobody has voted.
    pub open spec fn fresh(labels: Seq<Seq<char>>, close_time: int, allow_list: Seq<Identity>) -> Session {
        Session {
            options: Seq::new(labels.len(), |i: int| Tally { label: labels[i], count: 0 }),
            voters: Seq::empty(),
            close_time,
            allow_list,
        }
    }

    /// Why `ballot` is refused, or `None` where it is admitted. The checks
    /// come in a fixed order and the first that fails decides: eligibility,
    /// the time window, a second vote, the index, the room left for voters,
    /// the room left in the tally.
    pub open spec fn vote_rejection(self, ballot: Ballot) -> Option<ErrorCode> {
        if !self.eligible(ballot.voter) {
            Some(ErrorCode::PermissionDenied)
        } else if ballot.now > self.close_time {
            Some(ErrorCode::VotingClosed)
        } else if self.voters.contains(ballot.voter) {
            Some(ErrorCode::AlreadyVoted)
        } else if ballot.choice >= self.options.len() {
            Some(ErrorCode::InvalidChoice)
        } else if self.voters.len() >= MAX_VOTERS {
            Some(ErrorCode::MaxVotersExceeded)
        } else if self.options[ballot.choice as int].count >= u64::MAX {
            Some(ErrorCode::Overflow)
        } else {
            None
        }
    }

    /// The session with one more vote for the option at `choice` and `voter`
    /// recorded last.
    pub open spec fn with_vote(self, voter: Identity, choice: nat) -> Session {
        let chosen = self.options[choice as int];
        Session {
            options: self.options.update(
                choice as int,
                Tally { label: chosen.label, count: chosen.count + 1 },
            ),
            voters: self.voters.push(voter),
            close_time: self.close_time,
            allow_list: self.allow_list,
        }
    }

    /// The session after `ballot` was handled: changed where the ballot is
    /// admitted, the same where it is refused.
    pub open spec fn after_ballot(self, ballot: Ballot) -> Session {
        if self.vote_rejection(ballot) is None {
            self.with_vote(ballot.voter, ballot.choice)
        } else {
            self
        }
    }

    /// The session after each of `ballots` was handled in turn.
    pub open spec fn after_ballots(self, ballots: Seq<Ballot>) -> Session
        decreases ballots.len(),
    {
        if ballots.len() == 0 {
            self
        } else {
            self.after_ballots(ballots.drop_last()).after_ballot(ballots.last())
        }
    }
}

} // verus!
