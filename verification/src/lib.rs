//! A polling ledger core: polls, candidates, one-vote-per-identity voting,
//! and three global `{total, active}` counter pairs that stay consistent
//! under every operation.
//!
//! The storage substrate (cell allocation at derived keys, signature checks,
//! rent) is an external collaborator: each operation here receives the
//! entities the host loaded, the caller's identity, and the current time as
//! plain values, and either commits all of its updates or leaves every
//! entity untouched and reports why.

pub mod candidates;
pub mod errors;
pub mod initialize;
pub mod laws;
pub mod polls;
pub mod states;
pub mod voting;

pub use candidates::register_candidate;
pub use candidates::unregister_candidate;
pub use errors::ErrorCode;
pub use initialize::initialize;
pub use polls::close_poll;
pub use polls::create_poll;
pub use states::Candidate;
pub use states::Counter;
pub use states::Identity;
pub use states::Poll;
pub use states::Registrations;
pub use states::Voter;
pub use states::Votes;
pub use voting::cast_vote;
pub use voting::close_vote;
