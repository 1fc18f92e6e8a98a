use vstd::prelude::*;

use crate::candidates::unregister_candidate_error;
use crate::errors::ErrorCode;
use crate::polls::close_poll_error;
use crate::states::Candidate;
use crate::states::Counter;
use crate::states::Identity;
use crate::states::Poll;
use crate::states::Registrations;
use crate::states::Voter;
use crate::states::Votes;
use crate::voting::cast_vote_error;
use crate::voting::close_vote_error;

verus! {

/// The only ways any one operation moves a `{total, active}` counter pair,
/// written over the pair as `(total, active)`: a creation raises both
/// fields by one, saturating (`create_poll`, `register_candidate`,
/// `cast_vote` on their own pair); a guarded reclamation lowers `active`
/// and leaves `total` (`close_poll`, `unregister_candidate`, `close_vote`);
/// every other operation leaves the pair alone.
pub open spec fn counter_pair_step(pre: (u64, u64), post: (u64, u64)) -> bool {
    ||| post == (pre.0.saturating_add(1), pre.1.saturating_add(1))
    ||| (post.0 == pre.0 && post.1 <= pre.1)
}

/// The effect each operation's contract gives it on a counter pair is a
/// `counter_pair_step`: the saturating double increment, the guarded
/// removal of `k` live entities (guarded, so it only ever runs when
/// `active >= k`), and leaving the pair alone.
pub proof fn lemma_operation_effects_are_steps(total: u64, active: u64, k: u64)
    ensures
        counter_pair_step(
            (total, active),
            (total.saturating_add(1), active.saturating_add(1)),
        ),
        active >= k ==> counter_pair_step((total, active), (total, (active - k) as u64)),
        counter_pair_step((total, active), (total, active)),
{
}

/// Along any run of operations that starts consistent, every counter pair
/// satisfies `active <= total` at every observation point, and `total`
/// never decreases: each step either raises both fields together or only
/// lowers `active`.
pub proof fn lemma_counter_pair_run_stays_consistent(run: Seq<(u64, u64)>)
    requires
        run.len() > 0,
        run[0].1 <= run[0].0,
        forall|i: int| 0 <= i < run.len() - 1 ==> #[trigger] counter_pair_step(run[i], run[i + 1]),
    ensures
        forall|i: int| 0 <= i < run.len() ==> (#[trigger] run[i]).1 <= run[i].0,
        forall|i: int, j: int| 0 <= i <= j < run.len() ==> (#[trigger] run[i]).0 <= (#[trigger] run[j]).0,
    decreases run.len(),
{
    if run.len() > 1 {
        let rest = run.subrange(1, run.len() as int);
        let i0: int = 0;
        assert(counter_pair_step(run[i0], run[i0 + 1]));
        assert(rest[0].1 <= rest[0].0);
        assert forall|i: int| 0 <= i < rest.len() - 1 implies #[trigger] counter_pair_step(
            rest[i],
            rest[i + 1],
        ) by {
            assert(rest[i] == run[i + 1]);
            assert(rest[i + 1] == run[i + 2]);
        }
        lemma_counter_pair_run_stays_consistent(rest);
        assert forall|i: int| 0 <= i < run.len() implies (#[trigger] run[i]).1 <= run[i].0 by {
            if i >= 1 {
                assert(run[i] == rest[i - 1]);
            }
        }
        assert forall|i: int, j: int| 0 <= i <= j < run.len() implies (#[trigger] run[i]).0 <= (
        #[trigger] run[j]).0 by {
            if i >= 1 {
                assert(run[i] == rest[i - 1]);
                assert(run[j] == rest[j - 1]);
            } else if j >= 1 {
                assert(run[j] == rest[j - 1]);
                assert(rest[0].0 <= rest[j - 1].0);
            }
        }
    }
}

/// One identity votes at most once per poll: after a successful cast the
/// receipt records the vote, and a second cast through the same receipt —
/// at any later time, against any registered candidate of the poll — is
/// refused as `VoterAlreadyVoted`. Since `cast_vote` leaves every entity
/// untouched on failure, the tallies keep the single vote's increment and
/// never count the identity twice.
///
/// `poll_after` and `voter_after` are the poll and the receipt as
/// `cast_vote` leaves them on success.
pub proof fn lemma_second_cast_rejected(
    poll: Poll,
    candidate: Candidate,
    voter: Voter,
    now: u64,
    poll_id: u64,
    cid: u64,
    second_candidate: Candidate,
    second_now: u64,
)
    requires
        cast_vote_error(poll, candidate, voter, now, poll_id) is None,
        second_candidate.has_registered,
        second_candidate.poll_id == poll_id,
    ensures
        ({
            let poll_after = Poll { votes: poll.votes.saturating_add(1), ..poll };
            let voter_after = Voter { poll_id: poll_id, cid: cid, has_voted: true };
            cast_vote_error(poll_after, second_candidate, voter_after, second_now, poll_id)
                == Some(ErrorCode::VoterAlreadyVoted)
        }),
{
}

/// One successful cast moves every tally by exactly one — the candidate's,
/// the poll's, and both fields of the global vote counter — so the gaps
/// `poll.votes - candidate.votes` and `votes.active - candidate.votes`
/// are unchanged: the tallies move in lockstep.
///
/// The bounds only keep the tallies inside the machine word, where an
/// increment is exact.
pub proof fn lemma_cast_moves_tallies_by_one(
    poll: Poll,
    candidate: Candidate,
    voter: Voter,
    votes: Votes,
    now: u64,
    poll_id: u64,
)
    requires
        cast_vote_error(poll, candidate, voter, now, poll_id) is None,
        poll.votes < u64::MAX,
        candidate.votes < u64::MAX,
        votes.total < u64::MAX,
        votes.active < u64::MAX,
    ensures
        ({
            let poll_after = Poll { votes: poll.votes.saturating_add(1), ..poll };
            let candidate_after = Candidate {
                votes: candidate.votes.saturating_add(1),
                ..candidate
            };
            let votes_after = Votes {
                total: votes.total.saturating_add(1),
                active: votes.active.saturating_add(1),
            };
            &&& poll_after.votes == poll.votes + 1
            &&& candidate_after.votes == candidate.votes + 1
            &&& votes_after.total == votes.total + 1
            &&& votes_after.active == votes.active + 1
            &&& poll_after.votes - candidate_after.votes == poll.votes - candidate.votes
            &&& votes_after.active - candidate_after.votes == votes.active - candidate.votes
        }),
{
}

/// Withdrawing a candidate removes exactly the candidate's own votes from
/// the poll tally and from the global count of standing votes — not zero
/// of them and not one fewer. In particular, when the tallies stand
/// exactly `candidate.votes` above the values they had at registration —
/// which casting keeps true, as `lemma_cast_moves_tallies_by_one` shows —
/// the withdrawal returns both to those baseline values.
pub proof fn lemma_unregister_removes_exactly_candidate_votes(
    poll: Poll,
    candidate: Candidate,
    registrations: Registrations,
    votes: Votes,
    signer: Identity,
    poll_id: u64,
    baseline_poll_votes: u64,
    baseline_active_votes: u64,
)
    requires
        unregister_candidate_error(poll, candidate, registrations, votes, signer, poll_id)
            is None,
        poll.votes == baseline_poll_votes + candidate.votes,
        votes.active == baseline_active_votes + candidate.votes,
    ensures
        (poll.votes - candidate.votes) as u64 == poll.votes - candidate.votes,
        (votes.active - candidate.votes) as u64 == votes.active - candidate.votes,
        (poll.votes - candidate.votes) as u64 == baseline_poll_votes,
        (votes.active - candidate.votes) as u64 == baseline_active_votes,
{
}

/// Closing a poll is gated by time before identity: while `now` is short
/// of the poll's end every attempt is refused as `PollStillActive`,
/// whoever calls; once the poll has ended, every caller but the creator is
/// refused as `Unauthorized`.
pub proof fn lemma_close_poll_gate(
    poll: Poll,
    counter: Counter,
    registrations: Registrations,
    votes: Votes,
    signer: Identity,
    now: u64,
)
    ensures
        now < poll.end ==> close_poll_error(poll, counter, registrations, votes, signer, now)
            == Some(ErrorCode::PollStillActive),
        now >= poll.end && signer != poll.creator ==> close_poll_error(
            poll,
            counter,
            registrations,
            votes,
            signer,
            now,
        ) == Some(ErrorCode::Unauthorized),
{
}

/// A vote withdrawal whose decrement would take a tally below zero is
/// refused with that tally's own underflow error — never wrapped and never
/// clamped to zero: once the receipt, poll, authorization and time checks
/// pass, a drained candidate tally, standing-vote count or poll tally is
/// surfaced, and success is owed exactly when all three are positive.
pub proof fn lemma_close_vote_surfaces_underflow(
    poll: Poll,
    candidate: Candidate,
    voter: Voter,
    votes: Votes,
    signer: Identity,
    now: u64,
    poll_id: u64,
    cid: u64,
)
    requires
        voter.cid == candidate.cid,
        poll.id == poll_id,
        candidate.cid == cid,
        voter.has_voted,
        poll.allow_vote_closing || poll.creator == signer,
        now < poll.end,
    ensures
        candidate.votes == 0 ==> close_vote_error(
            poll,
            candidate,
            voter,
            votes,
            signer,
            now,
            poll_id,
            cid,
        ) == Some(ErrorCode::CandidateVotesUnderflow),
        candidate.votes > 0 && votes.active == 0 ==> close_vote_error(
            poll,
            candidate,
            voter,
            votes,
            signer,
            now,
            poll_id,
            cid,
        ) == Some(ErrorCode::VotesCounterUnderflow),
        candidate.votes > 0 && votes.active > 0 && poll.votes == 0 ==> close_vote_error(
            poll,
            candidate,
            voter,
            votes,
            signer,
            now,
            poll_id,
            cid,
        ) == Some(ErrorCode::PollVotesUnderflow),
        candidate.votes > 0 && votes.active > 0 && poll.votes > 0 ==> close_vote_error(
            poll,
            candidate,
            voter,
            votes,
            signer,
            now,
            poll_id,
            cid,
        ) is None,
{
}

/// A poll closure whose bulk reconciliation would take a global `active`
/// count below zero is refused with that counter's own underflow error —
/// never wrapped and never clamped to zero: once the time and
/// authorization checks pass, a shortfall in any of the three counter
/// pairs is surfaced, and success is owed exactly when none falls short.
pub proof fn lemma_close_poll_surfaces_underflow(
    poll: Poll,
    counter: Counter,
    registrations: Registrations,
    votes: Votes,
    signer: Identity,
    now: u64,
)
    requires
        now >= poll.end,
        poll.creator == signer,
    ensures
        counter.active == 0 ==> close_poll_error(poll, counter, registrations, votes, signer, now)
            == Some(ErrorCode::PollCounterUnderflow),
        counter.active > 0 && registrations.active < poll.candidates ==> close_poll_error(
            poll,
            counter,
            registrations,
            votes,
            signer,
            now,
        ) == Some(ErrorCode::RegistrationsCounterUnderflow),
        counter.active > 0 && registrations.active >= poll.candidates && votes.active
            < poll.votes ==> close_poll_error(poll, counter, registrations, votes, signer, now)
            == Some(ErrorCode::VotesCounterUnderflow),
        counter.active > 0 && registrations.active >= poll.candidates && votes.active
            >= poll.votes ==> close_poll_error(poll, counter, registrations, votes, signer, now)
            is None,
{
}

/// A candidate withdrawal whose reconciliation would take a tally below
/// zero is refused with that tally's own underflow error — never wrapped
/// and never clamped to zero: once the poll and authorization checks pass,
/// a shortfall in the poll's candidate or vote tallies or in the global
/// `active` counts is surfaced, and success is owed exactly when none
/// falls short.
pub proof fn lemma_unregister_surfaces_underflow(
    poll: Poll,
    candidate: Candidate,
    registrations: Registrations,
    votes: Votes,
    signer: Identity,
    poll_id: u64,
)
    requires
        poll.id == poll_id,
        candidate.creator == signer,
        poll.allow_candidate_withdraw || poll.creator == signer,
    ensures
        poll.candidates == 0 ==> unregister_candidate_error(
            poll,
            candidate,
            registrations,
            votes,
            signer,
            poll_id,
        ) == Some(ErrorCode::PollCounterUnderflow),
        poll.candidates > 0 && poll.votes < candidate.votes ==> unregister_candidate_error(
            poll,
            candidate,
            registrations,
            votes,
            signer,
            poll_id,
        ) == Some(ErrorCode::PollVotesUnderflow),
        poll.candidates > 0 && poll.votes >= candidate.votes && registrations.active == 0
            ==> unregister_candidate_error(poll, candidate, registrations, votes, signer, poll_id)
            == Some(ErrorCode::RegistrationsCounterUnderflow),
        poll.candidates > 0 && poll.votes >= candidate.votes && registrations.active > 0
            && votes.active < candidate.votes ==> unregister_candidate_error(
            poll,
            candidate,
            registrations,
            votes,
            signer,
            poll_id,
        ) == Some(ErrorCode::VotesCounterUnderflow),
        poll.candidates > 0 && poll.votes >= candidate.votes && registrations.active > 0
            && votes.active >= candidate.votes ==> unregister_candidate_error(
            poll,
            candidate,
            registrations,
            votes,
            signer,
            poll_id,
        ) is None,
{
}

} // verus!
