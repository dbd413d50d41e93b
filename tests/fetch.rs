use gw2lib::endpoint::Schema;
use gw2lib::error::EndpointError;
use gw2lib::fetch::{
    all_strategy, ids_all_query, remaining_pages, AllStrategy, FetchAction, FetchEvent, FetchState, LookupKind,
};
use gw2lib::professions::Profession;

const NO_ALL: Schema = Schema {
    path: "v2/items",
    version: "2022-07-22T00:00:00.000Z",
    authenticated: false,
    locale: true,
    supports_all: false,
};

#[test]
fn follower_rechecks_cache_before_failing() {
    let (s, a) = FetchState::start();
    assert_eq!(a, FetchAction::Lookup);
    let (s, a) = s.step(FetchEvent::Looked(LookupKind::Follower));
    assert_eq!(a, FetchAction::Wait);
    let (s, a) = s.step(FetchEvent::Closed);
    assert_eq!(a, FetchAction::CheckCache);
    let (s, a) = s.step(FetchEvent::Rechecked { hit: false });
    assert_eq!(a, FetchAction::Lookup);
    let (s, a) = s.step(FetchEvent::Looked(LookupKind::Follower));
    assert_eq!(a, FetchAction::Wait);
    let (s, a) = s.step(FetchEvent::Closed);
    assert_eq!(a, FetchAction::CheckCache);
    let (s, a) = s.step(FetchEvent::Rechecked { hit: false });
    assert_eq!(a, FetchAction::Fail(EndpointError::ChannelClosed));
    assert_eq!(s, FetchState::Failed);
}

#[test]
fn second_close_still_finds_cached_value() {
    let (s, _) = FetchState::start();
    let (s, _) = s.step(FetchEvent::Looked(LookupKind::Follower));
    let (s, _) = s.step(FetchEvent::Closed);
    let (s, _) = s.step(FetchEvent::Rechecked { hit: false });
    let (s, _) = s.step(FetchEvent::Looked(LookupKind::Follower));
    let (s, a) = s.step(FetchEvent::Closed);
    assert_eq!(a, FetchAction::CheckCache);
    let (s, a) = s.step(FetchEvent::Rechecked { hit: true });
    assert_eq!(a, FetchAction::ReturnCached);
    assert_eq!(s, FetchState::Done);
}

#[test]
fn follower_finds_value_in_cache_after_close() {
    let (s, _) = FetchState::following();
    let (s, a) = s.step(FetchEvent::Closed);
    assert_eq!(a, FetchAction::CheckCache);
    let (s, a) = s.step(FetchEvent::Rechecked { hit: true });
    assert_eq!(a, FetchAction::ReturnCached);
    assert_eq!(s, FetchState::Done);
}

#[test]
fn follower_becomes_owner_after_failed_owner() {
    let (s, _) = FetchState::following();
    let (s, _) = s.step(FetchEvent::Closed);
    let (s, a) = s.step(FetchEvent::Rechecked { hit: false });
    assert_eq!(a, FetchAction::Lookup);
    let (s, a) = s.step(FetchEvent::Looked(LookupKind::Owner));
    assert_eq!(a, FetchAction::Fetch);
    let (s, a) = s.step(FetchEvent::FetchFailed);
    assert_eq!(a, FetchAction::Abandon);
    assert_eq!(s, FetchState::Failed);
}

#[test]
fn stray_events_repeat_the_expected_action() {
    let (s, _) = FetchState::start();
    assert_eq!(s.step(FetchEvent::Received), (s, FetchAction::Lookup));
    let (w, _) = FetchState::following();
    assert_eq!(w.step(FetchEvent::Succeeded), (w, FetchAction::Wait));
    let (r, _) = w.step(FetchEvent::Closed);
    assert_eq!(r.step(FetchEvent::Received), (r, FetchAction::CheckCache));
}

#[test]
fn strategy_selection() {
    assert_eq!(all_strategy(&Profession::schema()), AllStrategy::IdsAll);
    assert_eq!(all_strategy(&NO_ALL), AllStrategy::RequestIds);
    assert_eq!(ids_all_query(&Profession::schema()), Ok("ids=all".to_string()));
    assert_eq!(ids_all_query(&NO_ALL), Err(EndpointError::UnsupportedEndpointQuery));
}

#[test]
fn page_counts() {
    assert_eq!(remaining_pages(0), 0);
    assert_eq!(remaining_pages(200), 0);
    assert_eq!(remaining_pages(201), 1);
    assert_eq!(remaining_pages(400), 1);
    assert_eq!(remaining_pages(401), 2);
    assert_eq!(remaining_pages(1000), 4);
}
