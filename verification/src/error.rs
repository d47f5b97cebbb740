//! The reasons for which an operation on a session is refused.

use vstd::prelude::*;
use anchor_lang::prelude::ProgramError;

verus! {

/// Why an operation on a voting session was refused.
///
/// Each kind is a stable, user-visible code with a fixed message.
#[derive(Clone, Copy, Debug, PartialEq, Eq, Hash, Structural)]
pub enum ErrorCode {
    /// A tally would exceed the largest 64-bit unsigned value.
    Overflow,
    /// The chosen index does not address one of the options.
    InvalidChoice,
    /// The caller's identity is already among the voters.
    AlreadyVoted,
    /// The current time lies after the close time.
    VotingClosed,
    /// The session is private and the caller is not on its allow-list.
    PermissionDenied,
    /// More options than a session can hold, or a label that is too long.
    MaxLabelsExceeded,
    /// More allow-list entries than a session can hold.
    MaxAllowExceeded,
    /// The session already holds as many voters as its storage allows.
    MaxVotersExceeded,
}

/// Why a vote that asked the host for the time did not go through.
#[derive(Debug, PartialEq, Eq)]
pub enum VoteError {
    /// The rules of the session refuse the vote.
    Refused(ErrorCode),
    /// The host could not tell the time; its error is passed on.
    ClockUnavailable(ProgramError),
}

impl ErrorCode {
    /// The fixed human-readable text that goes with each kind.
    pub open spec fn message_text(self) -> Seq<char> {
        match self {
            ErrorCode::Overflow => "Vote count overflow"@,
            ErrorCode::InvalidChoice => "Invalid choice index"@,
            ErrorCode::AlreadyVoted => "This wallet has already voted"@,
            ErrorCode::VotingClosed => "The voting session has ended"@,
            ErrorCode::PermissionDenied => "You are not allowed to vote in this session"@,
            ErrorCode::MaxLabelsExceeded => "Max labels exceeded"@,
            ErrorCode::MaxAllowExceeded => "Max allow list size exceeded"@,
            ErrorCode::MaxVotersExceeded => "Max voters exceeded"@,
        }
    }

    /// Returns the message of this kind.
    pub fn message(&self) -> (text: &'static str)
        ensures
            text@ == self.message_text(),
    {
        match self {
            ErrorCode::Overflow => "Vote count overflow",
            ErrorCode::InvalidChoice => "Invalid choice index",
            ErrorCode::AlreadyVoted => "This wallet has already voted",
            ErrorCode::VotingClosed => "The voting session has ended",
            ErrorCode::PermissionDenied => "You are not allowed to vote in this session",
            ErrorCode::MaxLabelsExceeded => "Max labels exceeded",
            ErrorCode::MaxAllowExceeded => "Max allow list size exceeded",
            ErrorCode::MaxVotersExceeded => "Max voters exceeded",
        }
    }
}

} // verus!
