use gw2lib::bulk::BulkResult;
use gw2lib::cache::ExpiringCache;
use gw2lib::error::EndpointError;
use gw2lib::coordinator::{Coordinator, Lookup};
use gw2lib::endpoint::Language;
use gw2lib::fetch::{FetchAction, FetchEvent, FetchState, LookupKind};
use gw2lib::fingerprint::{fingerprint, Shape};
use gw2lib::response::get_cache_expiry;

fn skill_fp(id: &str) -> u64 {
    fingerprint(Shape::Item, "v2/skills", id, Some(Language::En))
}

#[test]
fn cache_reads_before_expiry_only() {
    let mut c: ExpiringCache<String> = ExpiringCache::new();
    c.insert(7, "seven".to_string(), 1000 + 60);
    assert_eq!(c.get(7, 1000), Some(&"seven".to_string()));
    assert_eq!(c.get(7, 1059), Some(&"seven".to_string()));
    assert_eq!(c.get(7, 1060), None);
    assert_eq!(c.get(7, 5000), None);
    assert_eq!(c.get(8, 1000), None);
}

#[test]
fn cache_insert_overwrites() {
    let mut c: ExpiringCache<u32> = ExpiringCache::new();
    c.insert(1, 10, 100);
    c.insert(1, 11, 50);
    assert_eq!(c.get(1, 10), Some(&11));
    assert_eq!(c.get(1, 60), None);
}

#[test]
fn two_concurrent_callers_share_one_fetch() {
    let mut coord: Coordinator<String, u32> = Coordinator::new();
    let fp = skill_fp("42");
    let now = 1_000_000;
    let mut outbound = 0;

    let (first_state, first_action) = FetchState::start();
    let (second_state, second_action) = FetchState::start();
    assert_eq!(first_action, FetchAction::Lookup);
    assert_eq!(second_action, FetchAction::Lookup);

    let first = coord.lookup(fp, now, false, 1);
    let (first_state, first_action) = first_state.step(FetchEvent::Looked(first.kind()));
    assert_eq!(first.kind(), LookupKind::Owner);
    assert_eq!(first_action, FetchAction::Fetch);
    outbound += 1;

    let second = coord.lookup(fp, now, false, 2);
    assert_eq!(second.kind(), LookupKind::Follower);
    let (second_state, second_action) = second_state.step(FetchEvent::Looked(second.kind()));
    assert_eq!(second_action, FetchAction::Wait);
    assert_eq!(coord.channel(fp), Some(&1));

    let (_, first_action) = first_state.step(FetchEvent::Succeeded);
    assert_eq!(first_action, FetchAction::Publish);
    let value = "{\"id\":42}".to_string();
    let expires = get_cache_expiry(now, 0, &Vec::new());
    coord.store(fp, value.clone(), expires);
    match first {
        Lookup::Owner(token) => coord.release(token),
        _ => panic!("first caller must own the fetch"),
    }

    let (second_state, second_action) = second_state.step(FetchEvent::Received);
    assert_eq!(second_action, FetchAction::ReturnReceived);
    assert_eq!(second_state, FetchState::Done);
    assert_eq!(outbound, 1);
    assert_eq!(expires, now + 300);
    assert_eq!(coord.cached(fp, now), Some(&value));
    assert_eq!(coord.cached(fp, now + 299), Some(&value));
    assert_eq!(coord.cached(fp, now + 300), None);
    assert_eq!(coord.channel(fp), None);
}

#[test]
fn many_callers_make_one_owner() {
    let mut coord: Coordinator<u32, u32> = Coordinator::new();
    let fp = skill_fp("9");
    let mut owners = 0;
    let mut followers = 0;
    for i in 0..10u32 {
        match coord.lookup(fp, 5, i % 2 == 0, i).kind() {
            LookupKind::Owner => owners += 1,
            LookupKind::Follower => followers += 1,
            LookupKind::Hit => panic!("the cache is empty"),
        }
    }
    assert_eq!(owners, 1);
    assert_eq!(followers, 9);
}

#[test]
fn fixed_resource_twice_hits_cache() {
    let mut coord: Coordinator<String, ()> = Coordinator::new();
    let fp = fingerprint(Shape::Item, "v2/build", "", None);
    let now = 100;
    let mut outbound = 0;
    match coord.lookup(fp, now, false, ()) {
        Lookup::Owner(token) => {
            outbound += 1;
            coord.store(fp, "{\"id\":115267}".to_string(), now + 300);
            coord.release(token);
        }
        _ => panic!("an empty cache must make an owner"),
    }
    let second = coord.lookup(fp, now + 1, false, ());
    assert_eq!(second.kind(), LookupKind::Hit);
    assert_eq!(outbound, 1);
    let (_, action) = FetchState::start().0.step(FetchEvent::Looked(second.kind()));
    assert_eq!(action, FetchAction::ReturnCached);
}

#[test]
fn cache_wins_over_running_fetch() {
    let mut coord: Coordinator<u32, ()> = Coordinator::new();
    let fp = 77;
    let token = match coord.lookup(fp, 0, false, ()) {
        Lookup::Owner(t) => t,
        _ => panic!("expected owner"),
    };
    coord.store(fp, 5, 1000);
    assert_eq!(coord.lookup(fp, 10, false, ()).kind(), LookupKind::Hit);
    assert_eq!(coord.lookup(fp, 10, true, ()).kind(), LookupKind::Follower);
    coord.release(token);
}

#[test]
fn released_slot_starts_a_new_fetch() {
    let mut coord: Coordinator<u32, ()> = Coordinator::new();
    let fp = 12;
    let token = match coord.lookup(fp, 0, false, ()) {
        Lookup::Owner(t) => t,
        _ => panic!("expected owner"),
    };
    assert_eq!(token.fingerprint(), fp);
    coord.release(token);
    assert_eq!(coord.lookup(fp, 0, false, ()).kind(), LookupKind::Owner);
}

#[test]
fn expired_entry_starts_a_new_fetch() {
    let mut coord: Coordinator<u32, ()> = Coordinator::new();
    coord.store(3, 30, 50);
    assert_eq!(coord.lookup(3, 49, false, ()).kind(), LookupKind::Hit);
    assert_eq!(coord.lookup(3, 50, false, ()).kind(), LookupKind::Owner);
}

#[test]
fn bulk_plan_splits_ids() {
    let mut coord: Coordinator<u32, u32> = Coordinator::new();
    coord.store(1, 100, 1000);
    let running = match coord.lookup(2, 0, false, 0) {
        Lookup::Owner(t) => t,
        _ => panic!("expected owner"),
    };
    let fps = vec![1, 2, 3, 4, 3];
    let mut plan = coord.plan_many(&fps, 10, false, || 9);
    assert_eq!(plan.cached(), &vec![0]);
    assert_eq!(plan.followed(), &vec![1, 4]);
    assert_eq!(plan.owned(), &vec![2, 3]);
    assert!(!plan.is_done());

    let t3 = coord.deliver(&mut plan, 3, 300, 500).unwrap();
    assert_eq!(t3.fingerprint(), 3);
    coord.release(t3);
    assert!(matches!(
        coord.deliver(&mut plan, 99, 9900, 500),
        Err(gw2lib::error::EndpointError::UnexpectedEntry)
    ));
    assert_eq!(coord.cached(99, 10), Some(&9900));
    assert_eq!(coord.cached(3, 10), Some(&300));
    assert!(!plan.is_done());
    coord.finish(plan);
    assert_eq!(coord.channel(4), None);
    assert_eq!(coord.channel(3), None);
    assert_eq!(coord.channel(2), Some(&0));
    coord.release(running);
    assert_eq!(coord.channel(2), None);
}

#[test]
fn forced_bulk_plan_skips_cache() {
    let mut coord: Coordinator<u32, u32> = Coordinator::new();
    coord.store(1, 100, 1000);
    let fps = vec![1, 2];
    let plan = coord.plan_many(&fps, 10, true, || 0);
    assert!(plan.cached().is_empty());
    assert_eq!(plan.owned(), &vec![0, 1]);
    coord.finish(plan);
}

#[test]
fn recheck_reads_cache_unless_forced() {
    let mut coord: Coordinator<u32, ()> = Coordinator::new();
    coord.store(4, 40, 100);
    assert_eq!(coord.recheck(4, 99, false), Some(&40));
    assert_eq!(coord.recheck(4, 100, false), None);
    assert_eq!(coord.recheck(4, 99, true), None);
    assert_eq!(coord.recheck(5, 0, false), None);
}

#[test]
fn channel_belongs_to_the_owner() {
    let mut coord: Coordinator<u32, u32> = Coordinator::new();
    let owner = coord.lookup(8, 0, false, 111);
    assert_eq!(coord.lookup(8, 0, false, 222).kind(), LookupKind::Follower);
    assert_eq!(coord.channel(8), Some(&111));
    match owner {
        Lookup::Owner(t) => coord.release(t),
        _ => panic!("expected owner"),
    }
    assert_eq!(coord.channel(8), None);
}

#[test]
fn store_all_caches_every_record() {
    let mut coord: Coordinator<u32, ()> = Coordinator::new();
    coord.store_all(&vec![1, 2, 3, 2], vec![10, 20, 30, 21], 500);
    assert_eq!(coord.cached(1, 0), Some(&10));
    assert_eq!(coord.cached(2, 0), Some(&21));
    assert_eq!(coord.cached(3, 499), Some(&30));
    assert_eq!(coord.cached(3, 500), None);
    coord.store_all(&vec![], vec![], 9);
    assert_eq!(coord.cached(1, 0), Some(&10));
}

#[test]
fn first_chunk_error_wins() {
    let mut r = BulkResult::new(vec![1u32, 2]);
    r.add_chunk(Ok(vec![3, 4]));
    r.add_chunk(Err(EndpointError::ApiError(gw2lib::error::ApiError::RateLimited)));
    r.add_chunk(Ok(vec![5]));
    r.add_chunk(Err(EndpointError::UnexpectedEntry));
    assert_eq!(r.into_result(), Err(EndpointError::ApiError(gw2lib::error::ApiError::RateLimited)));
    let mut ok = BulkResult::new(vec![1u32]);
    ok.add_chunk(Ok(vec![2, 3]));
    ok.add_chunk(Ok(vec![]));
    assert_eq!(ok.into_result(), Ok(vec![1, 2, 3]));
}

#[test]
fn configured_ttl_sets_expiry() {
    let mut coord: Coordinator<String, u32> = Coordinator::new();
    let fp = skill_fp("42");
    let now = 2_000;
    let owner = coord.lookup(fp, now, false, 1);
    assert_eq!(coord.lookup(fp, now, false, 2).kind(), LookupKind::Follower);
    let expires = get_cache_expiry(now, 5, &vec![("cache-control".to_string(), b"900".to_vec())]);
    assert_eq!(expires, now + 5);
    coord.store(fp, "v".to_string(), expires);
    match owner {
        Lookup::Owner(t) => coord.release(t),
        _ => panic!("expected owner"),
    }
    assert_eq!(coord.cached(fp, now + 4), Some(&"v".to_string()));
    assert_eq!(coord.cached(fp, now + 5), None);
}
