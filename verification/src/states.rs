use vstd::prelude::*;

verus! {

/// Longest title a poll may carry, in characters.
pub const MAX_TITLE_CHARS: usize = 30;

/// Longest description a poll may carry, in characters.
pub const MAX_DESCRIPTION_CHARS: usize = 200;

/// Longest name a candidate may carry, in characters.
pub const MAX_NAME_CHARS: usize = 32;

/// A caller's public key, consumed only as an opaque, equality-comparable
/// authorization token.
#[derive(Clone, Copy, Debug, PartialEq, Eq, Structural)]
pub struct Identity {
    pub key: u64,
}

/// The global poll counter pair: `total` counts every poll ever created,
/// `active` counts the polls currently live.
#[derive(Clone, Copy, Debug, PartialEq, Eq, Structural)]
pub struct Counter {
    pub total: u64,
    pub active: u64,
}

impl Counter {
    /// No more polls can be live than were ever created.
    pub open spec fn consistent(self) -> bool {
        self.active <= self.total
    }
}

/// The global registration counter pair: `total` counts every candidate
/// ever registered, `active` counts the registrations currently live.
#[derive(Clone, Copy, Debug, PartialEq, Eq, Structural)]
pub struct Registrations {
    pub total: u64,
    pub active: u64,
}

impl Registrations {
    /// No more registrations can be live than were ever made.
    pub open spec fn consistent(self) -> bool {
        self.active <= self.total
    }
}

/// The global vote counter pair: `total` counts every vote ever cast,
/// `active` counts the votes currently standing.
#[derive(Clone, Copy, Debug, PartialEq, Eq, Structural)]
pub struct Votes {
    pub total: u64,
    pub active: u64,
}

impl Votes {
    /// No more votes can be standing than were ever cast.
    pub open spec fn consistent(self) -> bool {
        self.active <= self.total
    }
}

/// One poll: its identity, window, live tallies, and the policy flags that
/// gate who may register or withdraw candidates and withdraw votes.
#[derive(Debug)]
pub struct Poll {
    pub id: u64,
    pub creator: Identity,
    pub title: String,
    pub description: String,
    pub start: u64,
    pub end: u64,
    pub candidates: u64,
    pub votes: u64,
    /// Anyone may register a candidate; otherwise only the poll creator.
    pub allow_candidate_adding: bool,
    /// A voter may withdraw their own vote; otherwise only the poll creator.
    pub allow_vote_closing: bool,
    /// A registrant may withdraw their candidate; otherwise only the poll
    /// creator (who must also be the registrant).
    pub allow_candidate_withdraw: bool,
}

impl Poll {
    /// What `create_poll` establishes of every poll it returns.
    pub open spec fn well_formed(self) -> bool {
        &&& self.start < self.end
        &&& self.title@.len() <= MAX_TITLE_CHARS
        &&& self.description@.len() <= MAX_DESCRIPTION_CHARS
    }
}

/// One candidate, scoped to a poll. A cell with `has_registered == false`
/// is vacant and not a valid target for voting.
#[derive(Debug)]
pub struct Candidate {
    pub cid: u64,
    pub poll_id: u64,
    pub creator: Identity,
    pub name: String,
    pub votes: u64,
    pub has_registered: bool,
}

/// One vote receipt, keyed by the storage substrate to a single
/// `(poll, voter identity)` pair: at most one live receipt per voter per
/// poll is this ledger's double-vote guard.
#[derive(Clone, Copy, Debug, PartialEq, Eq, Structural)]
pub struct Voter {
    pub poll_id: u64,
    pub cid: u64,
    pub has_voted: bool,
}

} // verus!
