//! What holds of every session, however it was created and whatever ballots
//! it has seen.

use vstd::prelude::*;
use crate::error::ErrorCode;
use crate::identity::Identity;
use crate::record::{label_fits, tally_sum, Session, Tally, MAX_ALLOW, MAX_LABELS, MAX_VOTERS};
use crate::rules::{initialize_rejection, Ballot};

verus! {

/// Tallies that are all zero sum up to zero.
pub proof fn lemma_tally_sum_zero(options: Seq<Tally>)
    requires
        forall|i: int| 0 <= i < options.len() ==> (#[trigger] options[i]).count == 0,
    ensures
        tally_sum(options) == 0,
    decreases options.len(),
{
    if options.len() > 0 {
        lemma_tally_sum_zero(options.drop_last());
    }
}

/// Replacing one tally changes the sum by the difference of the two counts.
pub proof fn lemma_tally_sum_update(options: Seq<Tally>, index: int, tally: Tally)
    requires
        0 <= index < options.len(),
    ensures
        tally_sum(options.update(index, tally)) == tally_sum(options) - options[index].count
            + tally.count,
    decreases options.len(),
{
    let updated = options.update(index, tally);
    if index == options.len() - 1 {
        assert(updated.drop_last() =~= options.drop_last());
    } else {
        lemma_tally_sum_update(options.drop_last(), index, tally);
        assert(updated.drop_last() =~= options.drop_last().update(index, tally));
    }
}

/// No single tally is larger than the sum of all.
pub proof fn lemma_tally_at_most_sum(options: Seq<Tally>, index: int)
    requires
        0 <= index < options.len(),
    ensures
        options[index].count <= tally_sum(options),
    decreases options.len(),
{
    if index < options.len() - 1 {
        lemma_tally_at_most_sum(options.drop_last(), index);
    }
}

/// A session that may be created starts out well formed, with no voters and
/// every tally at zero.
pub proof fn fresh_session_well_formed(
    labels: Seq<Seq<char>>,
    close_time: int,
    allow_list: Seq<Identity>,
)
    requires
        initialize_rejection(labels, allow_list) is None,
    ensures
        Session::fresh(labels, close_time, allow_list).well_formed(),
        Session::fresh(labels, close_time, allow_list).voters.len() == 0,
        Session::fresh(labels, close_time, allow_list).total_votes() == 0,
        Session::fresh(labels, close_time, allow_list).options.len() == labels.len(),
        forall|i: int|
            0 <= i < labels.len() ==> (#[trigger] Session::fresh(
                labels,
                close_time,
                allow_list,
            ).options[i]) == (Tally { label: labels[i], count: 0 }),
{
    let fresh = Session::fresh(labels, close_time, allow_list);
    lemma_tally_sum_zero(fresh.options);
}

/// An admitted ballot adds exactly one voter and exactly one vote: the
/// chosen tally grows by one, every other tally and every label stay, and so
/// do the close time and the allow-list.
pub proof fn admitted_ballot_effect(session: Session, ballot: Ballot)
    requires
        session.vote_rejection(ballot) is None,
    ensures
        ({
            let next = session.after_ballot(ballot);
            &&& next.voters == session.voters.push(ballot.voter)
            &&& next.options.len() == session.options.len()
            &&& next.options[ballot.choice as int].count == session.options[ballot.choice as int].count + 1
            &&& forall|i: int|
                0 <= i < session.options.len() && i != ballot.choice ==> #[trigger] next.options[i]
                    == session.options[i]
            &&& forall|i: int|
                0 <= i < session.options.len() ==> (#[trigger] next.options[i]).label
                    == session.options[i].label
            &&& next.total_votes() == session.total_votes() + 1
            &&& next.close_time == session.close_time
            &&& next.allow_list == session.allow_list
        }),
{
    let chosen = session.options[ballot.choice as int];
    lemma_tally_sum_update(
        session.options,
        ballot.choice as int,
        Tally { label: chosen.label, count: chosen.count + 1 },
    );
}

/// Handling one ballot, admitted or refused, keeps a well-formed session
/// well formed.
pub proof fn ballot_keeps_well_formed(session: Session, ballot: Ballot)
    requires
        session.well_formed(),
    ensures
        session.after_ballot(ballot).well_formed(),
{
    if session.vote_rejection(ballot) is None {
        admitted_ballot_effect(session, ballot);
        let next = session.after_ballot(ballot);
        assert(next.voters_unique());
        assert(next.voters_eligible());
        assert(next.tallies_representable());
        assert(next.within_capacity()) by {
            assert forall|i: int| 0 <= i < next.options.len() implies label_fits(
                (#[trigger] next.options[i]).label,
            ) by {
                assert(next.options[i].label == session.options[i].label);
            }
        }
    }
}

/// A refused ballot leaves the session exactly as it was.
pub proof fn refused_ballot_changes_nothing(session: Session, ballot: Ballot)
    requires
        session.vote_rejection(ballot) is Some,
    ensures
        session.after_ballot(ballot) == session,
{
}

/// Conservation: whatever ballots a session sees, the tallies keep adding up
/// to the number of recorded voters.
pub proof fn votes_conserved_throughout(session: Session, ballots: Seq<Ballot>)
    requires
        session.votes_conserved(),
    ensures
        session.after_ballots(ballots).votes_conserved(),
    decreases ballots.len(),
{
    if ballots.len() > 0 {
        let before = session.after_ballots(ballots.drop_last());
        votes_conserved_throughout(session, ballots.drop_last());
        if before.vote_rejection(ballots.last()) is None {
            admitted_ballot_effect(before, ballots.last());
        }
    }
}

/// Uniqueness: whatever ballots a session sees, nobody is recorded as a
/// voter twice.
pub proof fn voters_unique_throughout(session: Session, ballots: Seq<Ballot>)
    requires
        session.voters_unique(),
    ensures
        session.after_ballots(ballots).voters_unique(),
    decreases ballots.len(),
{
    if ballots.len() > 0 {
        voters_unique_throughout(session, ballots.drop_last());
    }
}

/// Eligibility: whatever ballots a private session sees, every recorded
/// voter is on its allow-list.
pub proof fn voters_eligible_throughout(session: Session, ballots: Seq<Ballot>)
    requires
        session.voters_eligible(),
    ensures
        session.after_ballots(ballots).voters_eligible(),
    decreases ballots.len(),
{
    if ballots.len() > 0 {
        voters_eligible_throughout(session, ballots.drop_last());
    }
}

/// Bounds: whatever ballots a session sees, it holds at most
/// [`MAX_LABELS`] options, [`MAX_VOTERS`] voters and [`MAX_ALLOW`]
/// allow-list entries, and no label outgrows its space.
pub proof fn within_capacity_throughout(session: Session, ballots: Seq<Ballot>)
    requires
        session.within_capacity(),
    ensures
        session.after_ballots(ballots).within_capacity(),
        session.after_ballots(ballots).options.len() <= MAX_LABELS,
        session.after_ballots(ballots).voters.len() <= MAX_VOTERS,
        session.after_ballots(ballots).allow_list.len() <= MAX_ALLOW,
    decreases ballots.len(),
{
    if ballots.len() > 0 {
        let before = session.after_ballots(ballots.drop_last());
        within_capacity_throughout(session, ballots.drop_last());
        if before.vote_rejection(ballots.last()) is None {
            admitted_ballot_effect(before, ballots.last());
            let next = before.after_ballot(ballots.last());
            assert forall|i: int| 0 <= i < next.options.len() implies label_fits(
                (#[trigger] next.options[i]).label,
            ) by {
                assert(next.options[i].label == before.options[i].label);
            }
        }
    }
}

/// Whatever ballots a well-formed session sees, it stays well formed.
pub proof fn well_formed_throughout(session: Session, ballots: Seq<Ballot>)
    requires
        session.well_formed(),
    ensures
        session.after_ballots(ballots).well_formed(),
    decreases ballots.len(),
{
    if ballots.len() > 0 {
        well_formed_throughout(session, ballots.drop_last());
        ballot_keeps_well_formed(session.after_ballots(ballots.drop_last()), ballots.last());
    }
}

/// A session that was created and has then seen any ballots at all is well
/// formed: its tallies add up to its voters, no voter is recorded twice,
/// every voter was eligible, and it is within its capacity.
pub proof fn created_session_stays_well_formed(
    labels: Seq<Seq<char>>,
    close_time: int,
    allow_list: Seq<Identity>,
    ballots: Seq<Ballot>,
)
    requires
        initialize_rejection(labels, allow_list) is None,
    ensures
        ({
            let session = Session::fresh(labels, close_time, allow_list).after_ballots(ballots);
            &&& session.well_formed()
            &&& session.votes_conserved()
            &&& session.voters_unique()
            &&& session.voters_eligible()
            &&& session.tallies_representable()
            &&& session.within_capacity()
        }),
{
    fresh_session_well_formed(labels, close_time, allow_list);
    well_formed_throughout(Session::fresh(labels, close_time, allow_list), ballots);
}

/// Monotonicity: whatever ballots a session sees, its options stay the same
/// in number and in name, no tally ever shrinks, the voters recorded before
/// stay recorded in their places, and the close time and the allow-list
/// never change.
pub proof fn tallies_and_voters_only_grow(session: Session, ballots: Seq<Ballot>)
    ensures
        ({
            let later = session.after_ballots(ballots);
            &&& later.options.len() == session.options.len()
            &&& forall|i: int|
                0 <= i < session.options.len() ==> (#[trigger] later.options[i]).label
                    == session.options[i].label
            &&& forall|i: int|
                0 <= i < session.options.len() ==> (#[trigger] later.options[i]).count
                    >= session.options[i].count
            &&& session.voters.is_prefix_of(later.voters)
            &&& later.total_votes() >= session.total_votes()
            &&& later.close_time == session.close_time
            &&& later.allow_list == session.allow_list
        }),
    decreases ballots.len(),
{
    if ballots.len() > 0 {
        let before = session.after_ballots(ballots.drop_last());
        tallies_and_voters_only_grow(session, ballots.drop_last());
        if before.vote_rejection(ballots.last()) is None {
            admitted_ballot_effect(before, ballots.last());
            let later = before.after_ballot(ballots.last());
            assert forall|i: int| 0 <= i < session.options.len() implies #[trigger] later.options[i].count
                >= session.options[i].count by {
                assert(before.options[i].count >= session.options[i].count);
            }
            assert forall|i: int| 0 <= i < session.options.len() implies #[trigger] later.options[i].label
                == session.options[i].label by {
                assert(before.options[i].label == session.options[i].label);
            }
        }
    }
}

/// A ballot that comes after the close time is refused, whoever casts it
/// and whatever it chooses.
pub proof fn late_ballot_refused(session: Session, ballot: Ballot)
    requires
        ballot.now > session.close_time,
    ensures
        session.vote_rejection(ballot) == Some(ErrorCode::PermissionDenied)
            || session.vote_rejection(ballot) == Some(ErrorCode::VotingClosed),
        session.vote_rejection(ballot) == Some(ErrorCode::PermissionDenied) <==> !session.eligible(
            ballot.voter,
        ),
        session.after_ballot(ballot) == session,
{
}

/// Temporal closure: once a time after the close time has been observed,
/// and the clock does not run backwards from there, no later ballot is
/// admitted and the session never changes again.
pub proof fn closed_session_admits_no_vote(session: Session, observed: int, ballots: Seq<Ballot>)
    requires
        observed > session.close_time,
        forall|i: int| 0 <= i < ballots.len() ==> (#[trigger] ballots[i]).now >= observed,
    ensures
        session.after_ballots(ballots) == session,
        forall|i: int|
            0 <= i < ballots.len() ==> session.vote_rejection(#[trigger] ballots[i]) is Some,
    decreases ballots.len(),
{
    if ballots.len() > 0 {
        let earlier = ballots.drop_last();
        assert forall|i: int| 0 <= i < earlier.len() implies (#[trigger] earlier[i]).now
            >= observed by {
            assert(earlier[i] == ballots[i]);
        }
        closed_session_admits_no_vote(session, observed, earlier);
        late_ballot_refused(session, ballots.last());
        assert forall|i: int| 0 <= i < ballots.len() implies session.vote_rejection(
            #[trigger] ballots[i],
        ) is Some by {
            late_ballot_refused(session, ballots[i]);
        }
    }
}

/// One vote each: whoever has been admitted once is refused from then on,
/// whatever ballots come in between. The reason is the passed close time
/// where the new ballot comes too late, and the earlier vote where it does
/// not.
pub proof fn admitted_voter_is_refused_afterwards(
    session: Session,
    ballot: Ballot,
    between: Seq<Ballot>,
    again: Ballot,
)
    requires
        session.vote_rejection(ballot) is None,
        again.voter == ballot.voter,
    ensures
        ({
            let later = session.after_ballot(ballot).after_ballots(between);
            &&& later.voters.contains(ballot.voter)
            &&& later.vote_rejection(again) == Some(
                if again.now > session.close_time {
                    ErrorCode::VotingClosed
                } else {
                    ErrorCode::AlreadyVoted
                },
            )
            &&& later.after_ballot(again) == later
        }),
{
    let voted = session.after_ballot(ballot);
    let later = voted.after_ballots(between);
    tallies_and_voters_only_grow(voted, between);
    let last = voted.voters.len() - 1;
    assert(voted.voters[last] == ballot.voter);
    assert(later.voters[last] == ballot.voter);
}

/// In a well-formed session no tally is anywhere near its limit, so no
/// ballot is ever refused for overflow.
pub proof fn well_formed_session_never_overflows(session: Session, ballot: Ballot)
    requires
        session.well_formed(),
    ensures
        session.vote_rejection(ballot) != Some(ErrorCode::Overflow),
{
    if ballot.choice < session.options.len() {
        lemma_tally_at_most_sum(session.options, ballot.choice as int);
    }
}

} // verus!
