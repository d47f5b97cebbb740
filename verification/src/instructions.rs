//! The entry points of a session: create it, vote in it, close it.

use vstd::prelude::*;
use vstd::string::*;
use crate::error::{ErrorCode, VoteError};
use crate::host::host_unix_timestamp;
use crate::identity::{contains_identity, Identity};
use crate::laws::{ballot_keeps_well_formed, fresh_session_well_formed};
use crate::record::{
    label_fits, OptionCount, Session, Tally, VoteAccount, MAX_ALLOW, MAX_LABELS, MAX_LABEL_SIZE,
    MAX_VOTERS,
};
use crate::rules::{initialize_rejection, vote_log_line, Ballot};

verus! {

/// What creating a session works on: the record to fill and the creator.
#[derive(Clone, Debug, PartialEq, Eq)]
pub struct Initialize {
    /// The freshly allocated record; what it holds before is of no account.
    pub vote_account: VoteAccount,
    /// The creator, who pays for the record.
    pub user: Identity,
}

/// What a vote works on: the session and the authenticated caller.
#[derive(Clone, Debug, PartialEq, Eq)]
pub struct Vote {
    /// The session voted in.
    pub vote_account: VoteAccount,
    /// The caller, whose vote it is.
    pub user: Identity,
}

/// What closing a session works on: the session and the caller, who receives
/// the storage that the session gives up.
#[derive(Clone, Debug, PartialEq, Eq)]
pub struct CloseSession {
    /// The session to destroy.
    pub vote_account: VoteAccount,
    /// The caller.
    pub user: Identity,
}

impl Vote {
    /// Whether `after` and `outcome` are what may come of this caller's vote
    /// for `choice_index` when the time is asked of the host.
    ///
    /// Either the host gave a time, and the vote was handled as at that
    /// time; or it gave none, the caller being eligible, and nothing changed.
    pub open spec fn voted(
        &self,
        choice_index: u32,
        after: Vote,
        outcome: Result<String, VoteError>,
    ) -> bool {
        match outcome {
            Ok(line) => self.voted_at_some_time(choice_index, after, Ok(line)),
            Err(VoteError::Refused(reason)) => self.voted_at_some_time(
                choice_index,
                after,
                Err(reason),
            ),
            Err(VoteError::ClockUnavailable(_)) => {
                &&& self.vote_account@.eligible(self.user)
                &&& after == *self
            },
        }
    }

    /// Whether `after` and `outcome` are what comes of this caller's vote for
    /// `choice_index` at some reading of the clock.
    pub open spec fn voted_at_some_time(
        &self,
        choice_index: u32,
        after: Vote,
        outcome: Result<String, ErrorCode>,
    ) -> bool {
        exists|now: i64| #[trigger] self.voted_at(choice_index, now, after, outcome)
    }

    /// The ballot that this caller casts for `choice_index` at time `now`.
    pub open spec fn ballot(&self, choice_index: u32, now: i64) -> Ballot {
        Ballot { voter: self.user, choice: choice_index as nat, now: now as int }
    }

    /// Whether `after` and `outcome` are what comes of this caller's vote for
    /// `choice_index` when the clock shows `now`.
    ///
    /// A refused vote gives the reason and leaves everything as it was. An
    /// admitted one gives the line to log and the session with the vote in
    /// it.
    pub open spec fn voted_at(
        &self,
        choice_index: u32,
        now: i64,
        after: Vote,
        outcome: Result<String, ErrorCode>,
    ) -> bool {
        match self.vote_account@.vote_rejection(self.ballot(choice_index, now)) {
            Some(reason) => outcome == Err::<String, ErrorCode>(reason) && after == *self,
            None => {
                &&& outcome matches Ok(line)
                &&& line@ == vote_log_line(self.vote_account@.options[choice_index as int].label)
                &&& after.user == self.user
                &&& after.vote_account@ == self.vote_account@.with_vote(
                    self.user,
                    choice_index as nat,
                )
            },
        }
    }
}

/// Creates a session in the record of `ctx`: one option per label, in order
/// and with no votes, nobody recorded as a voter, and the close time and
/// allow-list as given.
///
/// More than [`MAX_LABELS`] labels, or a label of more than
/// [`MAX_LABEL_SIZE`] bytes, is refused with `MaxLabelsExceeded`; after that,
/// more than [`MAX_ALLOW`] allow-list entries with `MaxAllowExceeded`. A
/// refusal leaves `ctx` untouched. The close time is taken as it is, also
/// where it lies in the past. Labels and allow-list entries may repeat.
pub fn initialize(
    ctx: &mut Initialize,
    labels: Vec<String>,
    close_time: i64,
    allow_list: Vec<Identity>,
) -> (outcome: Result<(), ErrorCode>)
    ensures
        match initialize_rejection(labels.deep_view(), allow_list@) {
            Some(reason) => outcome == Err::<(), ErrorCode>(reason) && *final(ctx) == *old(ctx),
            None => {
                &&& outcome is Ok
                &&& final(ctx).user == old(ctx).user
                &&& final(ctx).vote_account@ == Session::fresh(
                    labels.deep_view(),
                    close_time as int,
                    allow_list@,
                )
                &&& final(ctx).vote_account.well_formed()
            },
        },
{
    let ghost names = labels.deep_view();
    if labels.len() > MAX_LABELS {
        return Err(ErrorCode::MaxLabelsExceeded);
    }
    let mut checked: usize = 0;
    while checked < labels.len()
        invariant
            checked <= labels.len(),
            names == labels.deep_view(),
            forall|j: int| 0 <= j < checked ==> label_fits(#[trigger] names[j]),
        decreases labels.len() - checked,
    {
        if labels[checked].as_str().as_bytes().len() > MAX_LABEL_SIZE {
            assert(!label_fits(names[checked as int]));
            return Err(ErrorCode::MaxLabelsExceeded);
        }
        checked += 1;
    }
    if allow_list.len() > MAX_ALLOW {
        return Err(ErrorCode::MaxAllowExceeded);
    }
    let mut options: Vec<OptionCount> = Vec::new();
    let mut taken: usize = 0;
    while taken < labels.len()
        invariant
            taken <= labels.len(),
            names == labels.deep_view(),
            options@.len() == taken,
            forall|j: int|
                0 <= j < taken ==> (#[trigger] options@[j])@ == (Tally { label: names[j], count: 0 }),
        decreases labels.len() - taken,
    {
        options.push(OptionCount { label: labels[taken].clone(), count: 0 });
        taken += 1;
    }
    ctx.vote_account = VoteAccount { options, voters: Vec::new(), close_time, allow_list };
    proof {
        let fresh = Session::fresh(names, close_time as int, allow_list@);
        assert(ctx.vote_account@.options =~= fresh.options);
        assert(ctx.vote_account@.voters =~= fresh.voters);
        fresh_session_well_formed(names, close_time as int, allow_list@);
    }
    Ok(())
}

/// Tells whether the caller of `ctx` may vote in its session at all.
fn caller_eligible(ctx: &Vote) -> (eligible: bool)
    ensures
        eligible == ctx.vote_account@.eligible(ctx.user),
{
    ctx.vote_account.allow_list.len() == 0 || contains_identity(
        &ctx.vote_account.allow_list,
        &ctx.user,
    )
}

/// Handles the vote of a caller who is known to be eligible.
fn cast_eligible(ctx: &mut Vote, choice_index: u32, now: i64) -> (outcome: Result<String, ErrorCode>)
    requires
        old(ctx).vote_account@.eligible(old(ctx).user),
    ensures
        old(ctx).voted_at(choice_index, now, *final(ctx), outcome),
{
    if now > ctx.vote_account.close_time {
        return Err(ErrorCode::VotingClosed);
    }
    if contains_identity(&ctx.vote_account.voters, &ctx.user) {
        return Err(ErrorCode::AlreadyVoted);
    }
    let index: usize = choice_index as usize;
    if index >= ctx.vote_account.options.len() {
        return Err(ErrorCode::InvalidChoice);
    }
    if ctx.vote_account.voters.len() >= MAX_VOTERS {
        return Err(ErrorCode::MaxVotersExceeded);
    }
    let raised: u64 = match ctx.vote_account.options[index].count.checked_add(1) {
        Some(count) => count,
        None => {
            return Err(ErrorCode::Overflow);
        },
    };
    let line = String::from_str("Voted for: ").concat(ctx.vote_account.options[index].label.as_str());
    ctx.vote_account.options[index].count = raised;
    ctx.vote_account.voters.push(ctx.user);
    assert(ctx.vote_account@.options =~= old(ctx).vote_account@.with_vote(
        old(ctx).user,
        choice_index as nat,
    ).options);
    Ok(line)
}

/// Casts the caller's vote for the option at `choice_index`, with `now` as
/// the current time in seconds since the epoch.
///
/// The vote is checked in this order, and the first check that fails
/// decides: a private session admits only its allow-list
/// (`PermissionDenied`); `now` must not lie after the close time
/// (`VotingClosed`); nobody votes twice (`AlreadyVoted`); the index must
/// address an option (`InvalidChoice`); there must be room for one more
/// voter (`MaxVotersExceeded`) and for one more vote in the tally
/// (`Overflow`). An admitted vote raises the chosen tally by one, records the
/// caller as the last voter and returns the line to log. A refused vote
/// changes nothing.
pub fn vote_at(ctx: &mut Vote, choice_index: u32, now: i64) -> (outcome: Result<String, ErrorCode>)
    ensures
        old(ctx).voted_at(choice_index, now, *final(ctx), outcome),
        final(ctx).vote_account@ == old(ctx).vote_account@.after_ballot(
            old(ctx).ballot(choice_index, now),
        ),
        old(ctx).vote_account.well_formed() ==> final(ctx).vote_account.well_formed(),
{
    proof {
        if ctx.vote_account.well_formed() {
            ballot_keeps_well_formed(ctx.vote_account@, ctx.ballot(choice_index, now));
        }
    }
    if !caller_eligible(ctx) {
        return Err(ErrorCode::PermissionDenied);
    }
    cast_eligible(ctx, choice_index, now)
}

/// Casts the caller's vote for the option at `choice_index` at the time that
/// the host's clock shows.
///
/// A caller whom the session does not admit is refused before the clock is
/// asked. Otherwise the clock is read once, and the vote is handled as
/// [`vote_at`] handles it with that reading. Where the host has no time to
/// give, its error is passed on and nothing changes.
pub fn vote(ctx: &mut Vote, choice_index: u32) -> (outcome: Result<String, VoteError>)
    ensures
        !old(ctx).vote_account@.eligible(old(ctx).user) ==> outcome == Err::<String, VoteError>(
            VoteError::Refused(ErrorCode::PermissionDenied),
        ),
        old(ctx).voted(choice_index, *final(ctx), outcome),
        old(ctx).vote_account.well_formed() ==> final(ctx).vote_account.well_formed(),
{
    if !caller_eligible(ctx) {
        assert(old(ctx).voted_at(choice_index, 0, *ctx, Err(ErrorCode::PermissionDenied)));
        return Err(VoteError::Refused(ErrorCode::PermissionDenied));
    }
    match host_unix_timestamp() {
        Err(host_error) => Err(VoteError::ClockUnavailable(host_error)),
        Ok(now) => {
            proof {
                if ctx.vote_account.well_formed() {
                    ballot_keeps_well_formed(ctx.vote_account@, ctx.ballot(choice_index, now));
                }
            }
            match cast_eligible(ctx, choice_index, now) {
                Ok(line) => {
                    assert(old(ctx).voted_at(choice_index, now, *ctx, Ok(line)));
                    Ok(line)
                },
                Err(reason) => {
                    assert(old(ctx).voted_at(choice_index, now, *ctx, Err(reason)));
                    Err(VoteError::Refused(reason))
                },
            }
        },
    }
}

/// Closes the session of `ctx`: the session is given up for good, and the
/// caller is named as the one to whom its storage returns.
///
/// Anyone may close a session, at any time, whether or not voting has ended.
pub fn close_session(ctx: CloseSession) -> (outcome: Result<Identity, ErrorCode>)
    ensures
        outcome == Ok::<Identity, ErrorCode>(ctx.user),
{
    Ok(ctx.user)
}

} // verus!
