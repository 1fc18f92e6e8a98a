use vstd::prelude::*;

verus! {

/// Every way an operation of the ledger can be refused.
///
/// Validation errors reject malformed input; state-window errors reject an
/// operation attempted outside the poll's time window; `Unauthorized` rejects
/// a caller the poll's policy does not admit; the existence errors reject an
/// operation whose target is missing, already present, or mismatched; the
/// underflow errors surface a decrement that would have taken a counter
/// below zero, instead of wrapping or clamping it.
#[derive(Clone, Copy, Debug, PartialEq, Eq, Structural)]
pub enum ErrorCode {
    PollCounterUnderflow,
    RegistrationsCounterUnderflow,
    VoterAlreadyVoted,
    CandidateAlreadyRegistered,
    InvalidDates,
    CandidateNotRegistered,
    PollNotActive,
    PollDoesNotExist,
    Unauthorized,
    PollStillActive,
    NameTooLong,
    DescriptionTooLong,
    TitleTooLong,
    VotesCounterUnderflow,
    CandidateVotesUnderflow,
    VoterNotVoted,
    VoterCandidateMismatch,
    PollVotesUnderflow,
}

} // verus!
