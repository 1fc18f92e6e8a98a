use vstd::prelude::*;

use crate::errors::ErrorCode;
use crate::states::Candidate;
use crate::states::Identity;
use crate::states::Poll;
use crate::states::Voter;
use crate::states::Votes;

verus! {

/// Why a vote is refused, or `None` when it is owed success: the poll must
/// match the addressed identity and still be running, the target must be a
/// registered candidate of this poll, and the caller's receipt cell must
/// not already record a vote — one receipt per identity per poll is the
/// double-vote guard. Checks run in this order, so the first violated rule
/// names the error.
pub open spec fn cast_vote_error(
    poll: Poll,
    candidate: Candidate,
    voter: Voter,
    now: u64,
    poll_id: u64,
) -> Option<ErrorCode> {
    if poll.id != poll_id {
        Some(ErrorCode::PollDoesNotExist)
    } else if !candidate.has_registered || candidate.poll_id != poll_id {
        Some(ErrorCode::CandidateNotRegistered)
    } else if voter.has_voted {
        Some(ErrorCode::VoterAlreadyVoted)
    } else if poll.end <= now {
        Some(ErrorCode::PollNotActive)
    } else {
        None
    }
}

/// Cast the caller's single vote for candidate `cid`, writing the receipt
/// into the caller's per-poll cell.
///
/// On success the receipt records the vote, the candidate's and the poll's
/// live tallies each rise by one, and the global vote counter pair rises
/// by one in both fields — one vote moves every tally by exactly one. On
/// failure every entity is untouched and the error is exactly what
/// `cast_vote_error` names.
pub fn cast_vote(
    poll: &mut Poll,
    candidate: &mut Candidate,
    voter: &mut Voter,
    votes: &mut Votes,
    now: u64,
    poll_id: u64,
    cid: u64,
) -> (result: Result<(), ErrorCode>)
    ensures
        match result {
            Ok(()) => ({
                let p = *old(poll);
                let c = *old(candidate);
                &&& cast_vote_error(*old(poll), *old(candidate), *old(voter), now, poll_id)
                    is None
                &&& *final(voter) == (Voter { poll_id: poll_id, cid: cid, has_voted: true })
                &&& *final(candidate) == (Candidate {
                    votes: c.votes.saturating_add(1),
                    ..c
                })
                &&& *final(poll) == (Poll { votes: p.votes.saturating_add(1), ..p })
                &&& *final(votes) == (Votes {
                    total: old(votes).total.saturating_add(1),
                    active: old(votes).active.saturating_add(1),
                })
            }),
            Err(e) => {
                &&& cast_vote_error(*old(poll), *old(candidate), *old(voter), now, poll_id)
                    == Some(e)
                &&& *final(poll) == *old(poll)
                &&& *final(candidate) == *old(candidate)
                &&& *final(voter) == *old(voter)
                &&& *final(votes) == *old(votes)
            },
        },
        old(votes).consistent() ==> final(votes).consistent(),
        final(votes).total >= old(votes).total,
{
    if poll.id != poll_id {
        return Err(ErrorCode::PollDoesNotExist);
    }
    if !candidate.has_registered || candidate.poll_id != poll_id {
        return Err(ErrorCode::CandidateNotRegistered);
    }
    if voter.has_voted {
        return Err(ErrorCode::VoterAlreadyVoted);
    }
    if poll.end <= now {
        return Err(ErrorCode::PollNotActive);
    }

    voter.cid = cid;
    voter.poll_id = poll_id;
    voter.has_voted = true;

    candidate.votes = candidate.votes.saturating_add(1);
    poll.votes = poll.votes.saturating_add(1);

    votes.total = votes.total.saturating_add(1);
    votes.active = votes.active.saturating_add(1);

    Ok(())
}

/// Why a vote withdrawal is refused, or `None` when it is owed success:
/// the receipt must point at the addressed candidate of the addressed,
/// still-running poll and must record a standing vote, a poll that forbids
/// self-withdrawal admits only its creator, and each of the three tallies
/// to be decremented must independently be positive. Checks run in this
/// order, so the first violated rule names the error.
pub open spec fn close_vote_error(
    poll: Poll,
    candidate: Candidate,
    voter: Voter,
    votes: Votes,
    signer: Identity,
    now: u64,
    poll_id: u64,
    cid: u64,
) -> Option<ErrorCode> {
    if voter.cid != candidate.cid {
        Some(ErrorCode::VoterCandidateMismatch)
    } else if poll.id != poll_id {
        Some(ErrorCode::PollDoesNotExist)
    } else if candidate.cid != cid {
        Some(ErrorCode::CandidateNotRegistered)
    } else if !voter.has_voted {
        Some(ErrorCode::VoterNotVoted)
    } else if !poll.allow_vote_closing && poll.creator != signer {
        Some(ErrorCode::Unauthorized)
    } else if now >= poll.end {
        Some(ErrorCode::PollNotActive)
    } else if candidate.votes == 0 {
        Some(ErrorCode::CandidateVotesUnderflow)
    } else if votes.active == 0 {
        Some(ErrorCode::VotesCounterUnderflow)
    } else if poll.votes == 0 {
        Some(ErrorCode::PollVotesUnderflow)
    } else {
        None
    }
}

/// Withdraw the vote recorded by the caller's receipt; the host reclaims
/// the receipt cell to the voter on success, freeing the identity to vote
/// again on this poll.
///
/// On success the candidate's tally, the poll's tally and the global
/// count of standing votes each fall by exactly one; the count of votes
/// ever cast stays. Every decrement is guarded: a shortfall is reported as
/// an underflow error and nothing changes.
pub fn close_vote(
    poll: &mut Poll,
    candidate: &mut Candidate,
    voter: &Voter,
    votes: &mut Votes,
    signer: Identity,
    now: u64,
    poll_id: u64,
    cid: u64,
) -> (result: Result<(), ErrorCode>)
    ensures
        match result {
            Ok(()) => ({
                let p = *old(poll);
                let c = *old(candidate);
                &&& close_vote_error(
                    *old(poll),
                    *old(candidate),
                    *voter,
                    *old(votes),
                    signer,
                    now,
                    poll_id,
                    cid,
                ) is None
                &&& *final(candidate) == (Candidate { votes: (c.votes - 1) as u64, ..c })
                &&& *final(poll) == (Poll { votes: (p.votes - 1) as u64, ..p })
                &&& *final(votes) == (Votes {
                    total: old(votes).total,
                    active: (old(votes).active - 1) as u64,
                })
            }),
            Err(e) => {
                &&& close_vote_error(
                    *old(poll),
                    *old(candidate),
                    *voter,
                    *old(votes),
                    signer,
                    now,
                    poll_id,
                    cid,
                ) == Some(e)
                &&& *final(poll) == *old(poll)
                &&& *final(candidate) == *old(candidate)
                &&& *final(votes) == *old(votes)
            },
        },
        old(votes).consistent() ==> final(votes).consistent(),
{
    if voter.cid != candidate.cid {
        return Err(ErrorCode::VoterCandidateMismatch);
    }
    if poll.id != poll_id {
        return Err(ErrorCode::PollDoesNotExist);
    }
    if candidate.cid != cid {
        return Err(ErrorCode::CandidateNotRegistered);
    }
    if !voter.has_voted {
        return Err(ErrorCode::VoterNotVoted);
    }
    if !poll.allow_vote_closing && poll.creator != signer {
        return Err(ErrorCode::Unauthorized);
    }
    if now >= poll.end {
        return Err(ErrorCode::PollNotActive);
    }
    if candidate.votes == 0 {
        return Err(ErrorCode::CandidateVotesUnderflow);
    }
    if votes.active == 0 {
        return Err(ErrorCode::VotesCounterUnderflow);
    }
    if poll.votes == 0 {
        return Err(ErrorCode::PollVotesUnderflow);
    }

    candidate.votes = candidate.votes - 1;
    poll.votes = poll.votes - 1;
    votes.active = votes.active - 1;

    Ok(())
}

} // verus!
