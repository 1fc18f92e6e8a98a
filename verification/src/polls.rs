use vstd::prelude::*;

use crate::errors::ErrorCode;
use crate::states::Counter;
use crate::states::Identity;
use crate::states::Poll;
use crate::states::Registrations;
use crate::states::Votes;
use crate::states::MAX_DESCRIPTION_CHARS;
use crate::states::MAX_TITLE_CHARS;

verus! {

/// Why a poll creation is refused, or `None` when it is owed success:
/// the window must be ordered and must not start in the past, and the
/// texts must fit their bounds. Checks run in this order, so the first
/// violated rule names the error.
pub open spec fn create_poll_error(
    now: u64,
    title: Seq<char>,
    description: Seq<char>,
    start: u64,
    end: u64,
) -> Option<ErrorCode> {
    if start >= end {
        Some(ErrorCode::InvalidDates)
    } else if start < now {
        Some(ErrorCode::PollNotActive)
    } else if title.len() > MAX_TITLE_CHARS {
        Some(ErrorCode::TitleTooLong)
    } else if description.len() > MAX_DESCRIPTION_CHARS {
        Some(ErrorCode::DescriptionTooLong)
    } else {
        None
    }
}

/// Create a poll scheduled for `[start, end)`.
///
/// On success the global poll counter pair rises by one in both fields and
/// the new poll carries the next identity, the caller as creator, zero
/// tallies, and the requested policy flags. On failure the counter pair is
/// untouched and the error is exactly what `create_poll_error` names.
pub fn create_poll(
    counter: &mut Counter,
    signer: Identity,
    now: u64,
    title: String,
    description: String,
    start: u64,
    end: u64,
    add_candidates: bool,
    withdraw_votes: bool,
    withdraw_candidates: bool,
) -> (result: Result<Poll, ErrorCode>)
    ensures
        match result {
            Ok(poll) => {
                &&& create_poll_error(now, title@, description@, start, end) is None
                &&& *final(counter) == (Counter {
                    total: old(counter).total.saturating_add(1),
                    active: old(counter).active.saturating_add(1),
                })
                &&& poll == (Poll {
                    id: final(counter).total,
                    creator: signer,
                    title: title,
                    description: description,
                    start: start,
                    end: end,
                    candidates: 0,
                    votes: 0,
                    allow_candidate_adding: add_candidates,
                    allow_vote_closing: withdraw_votes,
                    allow_candidate_withdraw: withdraw_candidates,
                })
                &&& poll.well_formed()
            },
            Err(e) => {
                &&& create_poll_error(now, title@, description@, start, end) == Some(e)
                &&& *final(counter) == *old(counter)
            },
        },
        old(counter).consistent() ==> final(counter).consistent(),
        final(counter).total >= old(counter).total,
{
    if start >= end {
        return Err(ErrorCode::InvalidDates);
    }
    if start < now {
        return Err(ErrorCode::PollNotActive);
    }
    if title.as_str().unicode_len() > MAX_TITLE_CHARS {
        return Err(ErrorCode::TitleTooLong);
    }
    if description.as_str().unicode_len() > MAX_DESCRIPTION_CHARS {
        return Err(ErrorCode::DescriptionTooLong);
    }

    counter.total = counter.total.saturating_add(1);
    counter.active = counter.active.saturating_add(1);

    Ok(Poll {
        id: counter.total,
        creator: signer,
        title,
        description,
        start,
        end,
        candidates: 0,
        votes: 0,
        allow_candidate_adding: add_candidates,
        allow_vote_closing: withdraw_votes,
        allow_candidate_withdraw: withdraw_candidates,
    })
}

/// Why closing a poll is refused, or `None` when it is owed success: the
/// poll must have ended, only its creator may close it, and the bulk
/// reconciliation of the three global counter pairs must not take any
/// `active` field below zero. Checks run in this order, so the first
/// violated rule names the error.
pub open spec fn close_poll_error(
    poll: Poll,
    counter: Counter,
    registrations: Registrations,
    votes: Votes,
    signer: Identity,
    now: u64,
) -> Option<ErrorCode> {
    if now < poll.end {
        Some(ErrorCode::PollStillActive)
    } else if poll.creator != signer {
        Some(ErrorCode::Unauthorized)
    } else if counter.active == 0 {
        Some(ErrorCode::PollCounterUnderflow)
    } else if registrations.active < poll.candidates {
        Some(ErrorCode::RegistrationsCounterUnderflow)
    } else if votes.active < poll.votes {
        Some(ErrorCode::VotesCounterUnderflow)
    } else {
        None
    }
}

/// Close an ended poll; the host reclaims its cell on success.
///
/// On success one live poll leaves the poll counter, and the poll's live
/// candidate and vote tallies leave the registration and vote counters, so
/// the global aggregates never keep orphaned entries for a poll that no
/// longer exists. Every decrement is guarded: a shortfall is reported as an
/// underflow error and nothing changes.
pub fn close_poll(
    poll: &Poll,
    counter: &mut Counter,
    registrations: &mut Registrations,
    votes: &mut Votes,
    signer: Identity,
    now: u64,
) -> (result: Result<(), ErrorCode>)
    ensures
        match result {
            Ok(()) => {
                &&& close_poll_error(
                    *poll,
                    *old(counter),
                    *old(registrations),
                    *old(votes),
                    signer,
                    now,
                ) is None
                &&& *final(counter) == (Counter {
                    total: old(counter).total,
                    active: (old(counter).active - 1) as u64,
                })
                &&& *final(registrations) == (Registrations {
                    total: old(registrations).total,
                    active: (old(registrations).active - poll.candidates) as u64,
                })
                &&& *final(votes) == (Votes {
                    total: old(votes).total,
                    active: (old(votes).active - poll.votes) as u64,
                })
            },
            Err(e) => {
                &&& close_poll_error(
                    *poll,
                    *old(counter),
                    *old(registrations),
                    *old(votes),
                    signer,
                    now,
                ) == Some(e)
                &&& *final(counter) == *old(counter)
                &&& *final(registrations) == *old(registrations)
                &&& *final(votes) == *old(votes)
            },
        },
        old(counter).consistent() ==> final(counter).consistent(),
        old(registrations).consistent() ==> final(registrations).consistent(),
        old(votes).consistent() ==> final(votes).consistent(),
{
    if now < poll.end {
        return Err(ErrorCode::PollStillActive);
    }
    if poll.creator != signer {
        return Err(ErrorCode::Unauthorized);
    }
    if counter.active == 0 {
        return Err(ErrorCode::PollCounterUnderflow);
    }
    if registrations.active < poll.candidates {
        return Err(ErrorCode::RegistrationsCounterUnderflow);
    }
    if votes.active < poll.votes {
        return Err(ErrorCode::VotesCounterUnderflow);
    }

    counter.active = counter.active - 1;
    registrations.active = registrations.active - poll.candidates;
    votes.active = votes.active - poll.votes;

    Ok(())
}

} // verus!
