use vstd::prelude::*;

use crate::states::Counter;
use crate::states::Registrations;
use crate::states::Votes;

verus! {

/// One-time setup: zero the three global counter pairs.
///
/// Every counter pair starts consistent (`active <= total`) and with nothing
/// ever created.
pub fn initialize(counter: &mut Counter, registrations: &mut Registrations, votes: &mut Votes)
    ensures
        *final(counter) == (Counter { total: 0, active: 0 }),
        *final(registrations) == (Registrations { total: 0, active: 0 }),
        *final(votes) == (Votes { total: 0, active: 0 }),
        final(counter).consistent(),
        final(registrations).consistent(),
        final(votes).consistent(),
{
    counter.total = 0;
    counter.active = 0;
    registrations.total = 0;
    registrations.active = 0;
    votes.total = 0;
    votes.active = 0;
}

} // verus!
