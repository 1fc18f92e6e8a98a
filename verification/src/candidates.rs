use vstd::prelude::*;

use crate::errors::ErrorCode;
use crate::states::Candidate;
use crate::states::Identity;
use crate::states::Poll;
use crate::states::Registrations;
use crate::states::Votes;
use crate::states::MAX_NAME_CHARS;

verus! {

/// Why a candidate registration is refused, or `None` when it is owed
/// success: the name must fit, the poll must still be running and match
/// the addressed identity, a poll that forbids open registration admits
/// only its creator, and the target cell must not already hold a
/// registered candidate (the replay guard). Checks run in this order, so
/// the first violated rule names the error.
pub open spec fn register_candidate_error(
    poll: Poll,
    candidate: Candidate,
    signer: Identity,
    now: u64,
    poll_id: u64,
    name: Seq<char>,
) -> Option<ErrorCode> {
    if name.len() > MAX_NAME_CHARS {
        Some(ErrorCode::NameTooLong)
    } else if poll.end <= now {
        Some(ErrorCode::PollNotActive)
    } else if poll.id != poll_id {
        Some(ErrorCode::PollDoesNotExist)
    } else if !poll.allow_candidate_adding && poll.creator != signer {
        Some(ErrorCode::Unauthorized)
    } else if candidate.has_registered {
        Some(ErrorCode::CandidateAlreadyRegistered)
    } else {
        None
    }
}

/// Register a candidate under `poll_id`, filling the vacant cell the host
/// allocated at the next registration identity.
///
/// On success the registration counter pair rises by one in both fields,
/// the poll's live candidate tally rises by one, and the cell holds the
/// new candidate: the next identity, the caller as registrant, and no
/// votes yet. On failure every entity is untouched and the error is
/// exactly what `register_candidate_error` names.
pub fn register_candidate(
    poll: &mut Poll,
    candidate: &mut Candidate,
    registrations: &mut Registrations,
    signer: Identity,
    now: u64,
    poll_id: u64,
    name: String,
) -> (result: Result<(), ErrorCode>)
    ensures
        match result {
            Ok(()) => ({
                let p = *old(poll);
                &&& register_candidate_error(
                    *old(poll),
                    *old(candidate),
                    signer,
                    now,
                    poll_id,
                    name@,
                ) is None
                &&& *final(registrations) == (Registrations {
                    total: old(registrations).total.saturating_add(1),
                    active: old(registrations).active.saturating_add(1),
                })
                &&& *final(poll) == (Poll { candidates: p.candidates.saturating_add(1), ..p })
                &&& *final(candidate) == (Candidate {
                    cid: final(registrations).total,
                    poll_id: poll_id,
                    creator: signer,
                    name: name,
                    votes: 0,
                    has_registered: true,
                })
            }),
            Err(e) => {
                &&& register_candidate_error(
                    *old(poll),
                    *old(candidate),
                    signer,
                    now,
                    poll_id,
                    name@,
                ) == Some(e)
                &&& *final(poll) == *old(poll)
                &&& *final(candidate) == *old(candidate)
                &&& *final(registrations) == *old(registrations)
            },
        },
        old(registrations).consistent() ==> final(registrations).consistent(),
        final(registrations).total >= old(registrations).total,
{
    if name.as_str().unicode_len() > MAX_NAME_CHARS {
        return Err(ErrorCode::NameTooLong);
    }
    if poll.end <= now {
        return Err(ErrorCode::PollNotActive);
    }
    if poll.id != poll_id {
        return Err(ErrorCode::PollDoesNotExist);
    }
    if !poll.allow_candidate_adding && poll.creator != signer {
        return Err(ErrorCode::Unauthorized);
    }
    if candidate.has_registered {
        return Err(ErrorCode::CandidateAlreadyRegistered);
    }

    registrations.total = registrations.total.saturating_add(1);
    registrations.active = registrations.active.saturating_add(1);
    poll.candidates = poll.candidates.saturating_add(1);

    *candidate = Candidate {
        cid: registrations.total,
        poll_id,
        creator: signer,
        name,
        votes: 0,
        has_registered: true,
    };

    Ok(())
}

/// Why a candidate withdrawal is refused, or `None` when it is owed
/// success: the poll must match the addressed identity, the caller must be
/// the candidate's registrant — and also the poll creator where the poll
/// forbids self-withdrawal — and the reconciliation must not take the
/// poll's tallies or the global `active` counts below zero. Checks run in
/// this order, so the first violated rule names the error.
pub open spec fn unregister_candidate_error(
    poll: Poll,
    candidate: Candidate,
    registrations: Registrations,
    votes: Votes,
    signer: Identity,
    poll_id: u64,
) -> Option<ErrorCode> {
    if poll.id != poll_id {
        Some(ErrorCode::PollDoesNotExist)
    } else if candidate.creator != signer {
        Some(ErrorCode::Unauthorized)
    } else if !poll.allow_candidate_withdraw && poll.creator != signer {
        Some(ErrorCode::Unauthorized)
    } else if poll.candidates == 0 {
        Some(ErrorCode::PollCounterUnderflow)
    } else if poll.votes < candidate.votes {
        Some(ErrorCode::PollVotesUnderflow)
    } else if registrations.active == 0 {
        Some(ErrorCode::RegistrationsCounterUnderflow)
    } else if votes.active < candidate.votes {
        Some(ErrorCode::VotesCounterUnderflow)
    } else {
        None
    }
}

/// Withdraw a candidate; the host reclaims the cell to the registrant on
/// success.
///
/// On success the poll loses one live candidate and exactly the
/// candidate's own votes — no more, no fewer — and the registration and
/// vote counters lose the same amounts, so a removed candidate leaves no
/// orphaned votes behind. Every decrement is guarded: a shortfall is
/// reported as an underflow error and nothing changes.
pub fn unregister_candidate(
    poll: &mut Poll,
    candidate: &Candidate,
    registrations: &mut Registrations,
    votes: &mut Votes,
    signer: Identity,
    poll_id: u64,
) -> (result: Result<(), ErrorCode>)
    ensures
        match result {
            Ok(()) => ({
                let p = *old(poll);
                &&& unregister_candidate_error(
                    *old(poll),
                    *candidate,
                    *old(registrations),
                    *old(votes),
                    signer,
                    poll_id,
                ) is None
                &&& *final(poll) == (Poll {
                    candidates: (p.candidates - 1) as u64,
                    votes: (p.votes - candidate.votes) as u64,
                    ..p
                })
                &&& *final(registrations) == (Registrations {
                    total: old(registrations).total,
                    active: (old(registrations).active - 1) as u64,
                })
                &&& *final(votes) == (Votes {
                    total: old(votes).total,
                    active: (old(votes).active - candidate.votes) as u64,
                })
            }),
            Err(e) => {
                &&& unregister_candidate_error(
                    *old(poll),
                    *candidate,
                    *old(registrations),
                    *old(votes),
                    signer,
                    poll_id,
                ) == Some(e)
                &&& *final(poll) == *old(poll)
                &&& *final(registrations) == *old(registrations)
                &&& *final(votes) == *old(votes)
            },
        },
        old(registrations).consistent() ==> final(registrations).consistent(),
        old(votes).consistent() ==> final(votes).consistent(),
{
    if poll.id != poll_id {
        return Err(ErrorCode::PollDoesNotExist);
    }
    if candidate.creator != signer {
        return Err(ErrorCode::Unauthorized);
    }
    if !poll.allow_candidate_withdraw && poll.creator != signer {
        return Err(ErrorCode::Unauthorized);
    }
    if poll.candidates == 0 {
        return Err(ErrorCode::PollCounterUnderflow);
    }
    if poll.votes < candidate.votes {
        return Err(ErrorCode::PollVotesUnderflow);
    }
    if registrations.active == 0 {
        return Err(ErrorCode::RegistrationsCounterUnderflow);
    }
    if votes.active < candidate.votes {
        return Err(ErrorCode::VotesCounterUnderflow);
    }

    poll.candidates = poll.candidates - 1;
    poll.votes = poll.votes - candidate.votes;
    registrations.active = registrations.active - 1;
    votes.active = votes.active - candidate.votes;

    Ok(())
}

} // verus!
