//! The decisions of one cache-aside, single-flight fetch, as a state
//! machine the caller drives: it performs each action (a lookup, a wait on
//! the broadcast, the network fetch) and hands back what came of it. Also
//! the choice of how a whole listing is fetched.

use vstd::prelude::*;

use crate::coordinator::Lookup;
use crate::endpoint::Schema;
use crate::error::EndpointError;

verus! {

/// What a lookup decided, without the owner's token.
#[derive(Clone, Copy, Debug, PartialEq, Eq)]
pub enum LookupKind {
    Hit,
    Owner,
    Follower,
}

impl Lookup {
    /// What the lookup decided.
    pub fn kind(&self) -> (r: LookupKind)
        ensures
            r == match self {
                Lookup::Hit => LookupKind::Hit,
                Lookup::Owner(_) => LookupKind::Owner,
                Lookup::Follower => LookupKind::Follower,
            },
    {
        match self {
            Lookup::Hit => LookupKind::Hit,
            Lookup::Owner(_) => LookupKind::Owner,
            Lookup::Follower => LookupKind::Follower,
        }
    }
}

/// Where one fetch stands. `retried` records that a follower's broadcast
/// already closed once without a value and the cache then missed.
#[derive(Clone, Copy, Debug, PartialEq, Eq)]
pub enum FetchState {
    /// The cache and the registry are to be consulted.
    Checking { retried: bool },
    /// Following another caller's fetch, waiting for its broadcast.
    Waiting { retried: bool },
    /// The broadcast closed without a value; the cache is read again.
    Rechecking { retried: bool },
    /// Owning the fetch: the request is built, rate-limited and sent.
    Fetching,
    /// A value was returned.
    Done,
    /// An error was returned.
    Failed,
}

/// What came of the last action.
#[derive(Clone, Copy, Debug, PartialEq, Eq)]
pub enum FetchEvent {
    /// The lookup's outcome.
    Looked(LookupKind),
    /// The owner's broadcast delivered a value.
    Received,
    /// The owner's broadcast closed without a value.
    Closed,
    /// The cache was read again: whether it held a valid value.
    Rechecked { hit: bool },
    /// The owned fetch returned a value.
    Succeeded,
    /// The owned fetch failed.
    FetchFailed,
}

/// What the caller does next.
#[derive(Clone, Debug, PartialEq, Eq)]
pub enum FetchAction {
    /// Look the fingerprint up in the coordinator.
    Lookup,
    /// Return the cached value.
    ReturnCached,
    /// Read the cache again, without taking part in the registry.
    CheckCache,
    /// Build the request, wait for the rate limiter, send it, classify the
    /// response.
    Fetch,
    /// Wait on the owner's broadcast.
    Wait,
    /// Return the value the broadcast delivered.
    ReturnReceived,
    /// Cache the fetched value, broadcast it, release the slot, return it.
    Publish,
    /// Release the slot without broadcasting and return the fetch's error.
    Abandon,
    /// Return this error.
    Fail(EndpointError),
}

/// The action a state expects when the event does not belong to it.
pub open spec fn expected_action(s: FetchState) -> FetchAction {
    match s {
        FetchState::Checking { .. } => FetchAction::Lookup,
        FetchState::Waiting { .. } => FetchAction::Wait,
        FetchState::Rechecking { .. } => FetchAction::CheckCache,
        FetchState::Fetching => FetchAction::Fetch,
        FetchState::Done => FetchAction::ReturnCached,
        FetchState::Failed => FetchAction::Fail(EndpointError::ChannelClosed),
    }
}

/// One transition. A hit ends the fetch from the cache; an owner fetches;
/// a follower waits. Whenever a follower's broadcast closes empty, the
/// cache is read again first, since the owner may have cached the value
/// without sending it: a hit returns it. The first miss makes the caller
/// look up again, which reads the cache once more and lets it own a new
/// fetch once the finished slot is gone; a miss after a second empty close
/// fails with `ChannelClosed`. An owner publishes a fetched value and
/// abandons its slot on failure. An event that does not belong to the state
/// leaves the state as it is and repeats the action the state expects.
pub open spec fn step_spec(s: FetchState, e: FetchEvent) -> (FetchState, FetchAction) {
    match (s, e) {
        (FetchState::Checking { .. }, FetchEvent::Looked(LookupKind::Hit)) => (
            FetchState::Done,
            FetchAction::ReturnCached,
        ),
        (FetchState::Checking { .. }, FetchEvent::Looked(LookupKind::Owner)) => (
            FetchState::Fetching,
            FetchAction::Fetch,
        ),
        (FetchState::Checking { retried }, FetchEvent::Looked(LookupKind::Follower)) => (
            FetchState::Waiting { retried },
            FetchAction::Wait,
        ),
        (FetchState::Waiting { .. }, FetchEvent::Received) => (
            FetchState::Done,
            FetchAction::ReturnReceived,
        ),
        (FetchState::Waiting { retried }, FetchEvent::Closed) => (
            FetchState::Rechecking { retried },
            FetchAction::CheckCache,
        ),
        (FetchState::Rechecking { .. }, FetchEvent::Rechecked { hit: true }) => (
            FetchState::Done,
            FetchAction::ReturnCached,
        ),
        (FetchState::Rechecking { retried }, FetchEvent::Rechecked { hit: false }) => if retried {
            (FetchState::Failed, FetchAction::Fail(EndpointError::ChannelClosed))
        } else {
            (FetchState::Checking { retried: true }, FetchAction::Lookup)
        },
        (FetchState::Fetching, FetchEvent::Succeeded) => (FetchState::Done, FetchAction::Publish),
        (FetchState::Fetching, FetchEvent::FetchFailed) => (FetchState::Failed, FetchAction::Abandon),
        _ => (s, expected_action(s)),
    }
}

impl FetchState {
    /// A fresh fetch: it starts by looking the fingerprint up.
    pub fn start() -> (r: (FetchState, FetchAction))
        ensures
            r == (FetchState::Checking { retried: false }, FetchAction::Lookup),
    {
        (FetchState::Checking { retried: false }, FetchAction::Lookup)
    }

    /// A caller that already follows a running fetch, as a bulk request's
    /// followers do.
    pub fn following() -> (r: (FetchState, FetchAction))
        ensures
            r == (FetchState::Waiting { retried: false }, FetchAction::Wait),
    {
        (FetchState::Waiting { retried: false }, FetchAction::Wait)
    }

    /// Whether the fetch has returned.
    pub open spec fn is_final(self) -> bool {
        self is Done || self is Failed
    }

    /// The transition for `event`.
    pub fn step(self, event: FetchEvent) -> (r: (FetchState, FetchAction))
        ensures
            r == step_spec(self, event),
    {
        match (self, event) {
            (FetchState::Checking { .. }, FetchEvent::Looked(LookupKind::Hit)) => (
                FetchState::Done,
                FetchAction::ReturnCached,
            ),
            (FetchState::Checking { .. }, FetchEvent::Looked(LookupKind::Owner)) => (
                FetchState::Fetching,
                FetchAction::Fetch,
            ),
            (FetchState::Checking { retried }, FetchEvent::Looked(LookupKind::Follower)) => (
                FetchState::Waiting { retried },
                FetchAction::Wait,
            ),
            (FetchState::Waiting { .. }, FetchEvent::Received) => (
                FetchState::Done,
                FetchAction::ReturnReceived,
            ),
            (FetchState::Waiting { retried }, FetchEvent::Closed) => (
                FetchState::Rechecking { retried },
                FetchAction::CheckCache,
            ),
            (FetchState::Rechecking { .. }, FetchEvent::Rechecked { hit: true }) => (
                FetchState::Done,
                FetchAction::ReturnCached,
            ),
            (FetchState::Rechecking { retried }, FetchEvent::Rechecked { hit: false }) => {
                if retried {
                    (FetchState::Failed, FetchAction::Fail(EndpointError::ChannelClosed))
                } else {
                    (FetchState::Checking { retried: true }, FetchAction::Lookup)
                }
            },
            (FetchState::Fetching, FetchEvent::Succeeded) => (FetchState::Done, FetchAction::Publish),
            (FetchState::Fetching, FetchEvent::FetchFailed) => (
                FetchState::Failed,
                FetchAction::Abandon,
            ),
            _ => {
                let action = match self {
                    FetchState::Checking { .. } => FetchAction::Lookup,
                    FetchState::Waiting { .. } => FetchAction::Wait,
                    FetchState::Rechecking { .. } => FetchAction::CheckCache,
                    FetchState::Fetching => FetchAction::Fetch,
                    FetchState::Done => FetchAction::ReturnCached,
                    FetchState::Failed => FetchAction::Fail(EndpointError::ChannelClosed),
                };
                (self, action)
            },
        }
    }
}

/// The work a state has left: a transition that does not repeat the
/// state's action lowers it, so a fetch makes at most two lookups and ends.
pub open spec fn remaining_work(s: FetchState) -> nat {
    match s {
        FetchState::Checking { retried } => if retried { 4 } else { 7 },
        FetchState::Waiting { retried } => if retried { 3 } else { 6 },
        FetchState::Rechecking { retried } => if retried { 2 } else { 5 },
        FetchState::Fetching => 1,
        FetchState::Done => 0,
        FetchState::Failed => 0,
    }
}

/// Every transition either leaves the state as it is or lowers its
/// remaining work: the acquisition race is resolved in boundedly many
/// steps, and no outcome retries the whole operation. A lookup after the
/// first one only follows a cache miss on re-check.
pub proof fn lemma_fetch_terminates(s: FetchState, e: FetchEvent)
    ensures
        step_spec(s, e).0 == s || remaining_work(step_spec(s, e).0) < remaining_work(s),
        step_spec(s, e).1 == FetchAction::Lookup ==> (step_spec(s, e).0 == s || (s == (
        FetchState::Rechecking { retried: false }) && e == (FetchEvent::Rechecked { hit: false })
            && step_spec(s, e).0 == (FetchState::Checking { retried: true }))),
{
}

/// A follower never concludes failure from a closed broadcast alone: an
/// empty close always leads to a cache re-check, and `ChannelClosed` is only
/// ever reached from a re-check that missed.
pub proof fn lemma_closed_rechecks_cache(s: FetchState, e: FetchEvent)
    ensures
        (s is Waiting && e == FetchEvent::Closed) ==> (step_spec(s, e).1 == FetchAction::CheckCache),
        (step_spec(s, e).0 != s && step_spec(s, e).1 == FetchAction::Fail(
            EndpointError::ChannelClosed,
        )) ==> (s is Rechecking && e == (FetchEvent::Rechecked { hit: false })),
        (s is Rechecking && e == (FetchEvent::Rechecked { hit: true })) ==> (step_spec(s, e) == (
        FetchState::Done, FetchAction::ReturnCached)),
{
}

/// How a whole listing is fetched.
#[derive(Clone, Copy, Debug, PartialEq, Eq)]
pub enum AllStrategy {
    /// One bulk request with `ids=all`; every returned record is cached.
    IdsAll,
    /// The id listing first, then a bulk fetch of those ids, which uses the
    /// cache and joins running fetches.
    RequestIds,
}

/// `ids=all` where the resource supports it, else the id listing and a
/// bulk fetch. Paging is never chosen: pages cannot use the cache.
pub fn all_strategy(schema: &Schema) -> (r: AllStrategy)
    ensures
        r == (if schema.supports_all {
            AllStrategy::IdsAll
        } else {
            AllStrategy::RequestIds
        }),
{
    if schema.supports_all {
        AllStrategy::IdsAll
    } else {
        AllStrategy::RequestIds
    }
}

/// The query of an `ids=all` request, or `UnsupportedEndpointQuery` when
/// the resource does not support it.
pub fn ids_all_query(schema: &Schema) -> (r: Result<String, EndpointError>)
    ensures
        schema.supports_all <==> r is Ok,
        r matches Ok(q) ==> q@ == "ids=all"@,
        r is Err ==> r == Err::<String, EndpointError>(EndpointError::UnsupportedEndpointQuery),
{
    if !schema.supports_all {
        return Err(EndpointError::UnsupportedEndpointQuery);
    }
    Ok(String::from_str("ids=all"))
}

/// The page size used when paging through a whole listing.
pub const PAGE_SIZE: u8 = 200;

/// The pages left after the first when `total` items are paged 200 at a
/// time: `ceil((total - 200) / 200)`, none when `total <= 200`.
pub open spec fn pages_after_first(total: nat) -> nat {
    if total <= 200 {
        0
    } else if (total - 200) as nat % 200 == 0 {
        ((total - 200) as nat / 200) as nat
    } else {
        ((total - 200) as nat / 200 + 1) as nat
    }
}

/// The number of pages to request after the first, given the total the
/// first page reported.
pub fn remaining_pages(total: u64) -> (r: u64)
    ensures
        r as nat == pages_after_first(total as nat),
{
    let rest = total.saturating_sub(200);
    if rest == 0 {
        0
    } else if rest % 200 == 0 {
        rest / 200
    } else {
        rest / 200 + 1
    }
}

} // verus!
