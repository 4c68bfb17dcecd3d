use url_shortener::allocation::{allocate, allocate_from_candidates, build_response};
use url_shortener::error::AppError;
use url_shortener::models::CreateUrlRequest;
use url_shortener::resolve::resolve;
use url_shortener::stats::get_stats;
use url_shortener::store::Store;

fn req(url: &str, custom: Option<&str>, expires_at: Option<i64>) -> CreateUrlRequest {
    CreateUrlRequest {
        url: url.to_string(),
        custom_code: custom.map(|c| c.to_string()),
        expires_at,
    }
}

#[test]
fn custom_code_scenario() {
    let mut store = Store::new();

    let r = allocate(&mut store, &req("https://example.com", Some("promo1"), None), 1000);
    let rec = r.expect("fresh custom code must be allocated");
    assert_eq!(rec.id, "promo1");
    assert_eq!(rec.original_url, "https://example.com");
    assert_eq!(rec.created_at, 1000);

    let target = resolve(&mut store, &"promo1".to_string(), 2000, None, None)
        .expect("known code must resolve");
    assert_eq!(target, "https://example.com");

    let stats = get_stats(&store, &"promo1".to_string()).expect("stats must succeed");
    assert_eq!(stats.total_visits, 1);
    assert_eq!(stats.visits.len(), 1);

    let again = allocate(&mut store, &req("https://other.example", Some("promo1"), None), 3000);
    assert!(matches!(again, Err(AppError::CodeAlreadyExists)));
}

#[test]
fn generated_code_round_trip() {
    let mut store = Store::new();
    let rec = allocate(&mut store, &req("https://example.com/a", None, None), 7)
        .expect("allocation on an empty store must succeed");
    assert_eq!(rec.id.chars().count(), 6);
    assert!(rec.id.chars().all(|c| c.is_ascii_alphanumeric()));

    let target = resolve(&mut store, &rec.id, 8, None, None).expect("fresh code must resolve");
    assert_eq!(target, "https://example.com/a");
}

#[test]
fn exhausted_after_eleven_collisions() {
    let mut store = Store::new();
    allocate(&mut store, &req("https://example.com", Some("AAAAAA"), None), 1)
        .expect("seed allocation must succeed");

    // a stub candidate list: the same taken code, eleven times over
    let candidates: Vec<String> = (0..11).map(|_| "AAAAAA".to_string()).collect();
    let r = allocate_from_candidates(
        &mut store,
        &"https://example.com/b".to_string(),
        None,
        &candidates,
        2,
    );
    assert!(matches!(r, Err(AppError::AllocationExhausted)));
}

#[test]
fn first_free_candidate_wins() {
    let mut store = Store::new();
    allocate(&mut store, &req("https://example.com", Some("taken1"), None), 1).unwrap();

    let candidates = vec!["taken1".to_string(), "taken1".to_string(), "free01".to_string()];
    let rec = allocate_from_candidates(
        &mut store,
        &"https://example.com/c".to_string(),
        None,
        &candidates,
        2,
    )
    .expect("a free candidate within the budget must be taken");
    assert_eq!(rec.id, "free01");
}

#[test]
fn expired_code_not_found_but_stats_succeed() {
    let mut store = Store::new();
    allocate(&mut store, &req("https://example.com", Some("oldone"), Some(100)), 50).unwrap();

    let r = resolve(&mut store, &"oldone".to_string(), 200, None, None);
    assert!(matches!(r, Err(AppError::UrlNotFound)));

    let stats = get_stats(&store, &"oldone".to_string())
        .expect("stats must stay retrievable for an expired code");
    assert_eq!(stats.original_url, "https://example.com");
    assert_eq!(stats.total_visits, 0);
}

#[test]
fn expiring_exactly_now_still_resolves() {
    let mut store = Store::new();
    allocate(&mut store, &req("https://example.com", Some("edgeof"), Some(100)), 50).unwrap();

    let target = resolve(&mut store, &"edgeof".to_string(), 100, None, None)
        .expect("a mapping expiring exactly at the lookup time is still active");
    assert_eq!(target, "https://example.com");
}

#[test]
fn unknown_code_not_found_everywhere() {
    let mut store = Store::new();
    let r = resolve(&mut store, &"nosuch".to_string(), 1, None, None);
    assert!(matches!(r, Err(AppError::UrlNotFound)));
    let s = get_stats(&store, &"nosuch".to_string());
    assert!(matches!(s, Err(AppError::UrlNotFound)));
}

#[test]
fn failed_resolve_records_no_visit() {
    let mut store = Store::new();
    allocate(&mut store, &req("https://example.com", Some("silent"), Some(10)), 5).unwrap();

    let _ = resolve(&mut store, &"silent".to_string(), 20, None, None);
    let _ = resolve(&mut store, &"absent".to_string(), 20, None, None);

    let stats = get_stats(&store, &"silent".to_string()).unwrap();
    assert_eq!(stats.total_visits, 0);
}

#[test]
fn stats_idempotent_without_new_visits() {
    let mut store = Store::new();
    allocate(&mut store, &req("https://example.com", Some("steady"), None), 1).unwrap();
    for i in 0..3 {
        resolve(&mut store, &"steady".to_string(), 10 + i, None, None).unwrap();
    }

    let a = get_stats(&store, &"steady".to_string()).unwrap();
    let b = get_stats(&store, &"steady".to_string()).unwrap();
    assert_eq!(a.total_visits, b.total_visits);
    assert_eq!(a.visits.len(), b.visits.len());
    for (x, y) in a.visits.iter().zip(b.visits.iter()) {
        assert_eq!(x.ip_address, y.ip_address);
        assert_eq!(x.user_agent, y.user_agent);
        assert_eq!(x.visited_at, y.visited_at);
    }
}

#[test]
fn visits_newest_first_and_window_capped() {
    let mut store = Store::new();
    allocate(&mut store, &req("https://example.com", Some("busy01"), None), 0).unwrap();

    let n: i64 = 105;
    for i in 0..n {
        resolve(&mut store, &"busy01".to_string(), 1000 + i, None, None).unwrap();
    }

    let stats = get_stats(&store, &"busy01".to_string()).unwrap();
    assert_eq!(stats.total_visits, 105);
    assert_eq!(stats.visits.len(), 100);
    assert_eq!(stats.visits[0].visited_at, 1000 + 104);
    for w in stats.visits.windows(2) {
        assert!(w[0].visited_at >= w[1].visited_at);
    }
}

#[test]
fn equal_timestamps_break_ties_by_recency() {
    let mut store = Store::new();
    allocate(&mut store, &req("https://example.com", Some("tiedup"), None), 0).unwrap();

    let first = "agent-first".to_string();
    let second = "agent-second".to_string();
    resolve(&mut store, &"tiedup".to_string(), 500, None, Some(&first)).unwrap();
    resolve(&mut store, &"tiedup".to_string(), 500, None, Some(&second)).unwrap();

    let stats = get_stats(&store, &"tiedup".to_string()).unwrap();
    assert_eq!(stats.visits[0].user_agent.as_deref(), Some("agent-second"));
    assert_eq!(stats.visits[1].user_agent.as_deref(), Some("agent-first"));
}

#[test]
fn window_holds_exactly_the_cap() {
    let mut store = Store::new();
    allocate(&mut store, &req("https://example.com", Some("atcap1"), None), 0).unwrap();
    for i in 0..100i64 {
        resolve(&mut store, &"atcap1".to_string(), i, None, None).unwrap();
    }
    let stats = get_stats(&store, &"atcap1".to_string()).unwrap();
    assert_eq!(stats.total_visits, 100);
    assert_eq!(stats.visits.len(), 100);
    assert_eq!(stats.visits[0].visited_at, 99);
    assert_eq!(stats.visits[99].visited_at, 0);
}

#[test]
fn visit_metadata_recorded() {
    let mut store = Store::new();
    allocate(&mut store, &req("https://example.com", Some("tagged"), None), 0).unwrap();

    let fwd = "203.0.113.9, 198.51.100.2".to_string();
    let ua = "curl/8.0".to_string();
    resolve(&mut store, &"tagged".to_string(), 42, Some(&fwd), Some(&ua)).unwrap();

    let stats = get_stats(&store, &"tagged".to_string()).unwrap();
    assert_eq!(stats.visits.len(), 1);
    assert_eq!(stats.visits[0].ip_address.as_deref(), Some("203.0.113.9"));
    assert_eq!(stats.visits[0].user_agent.as_deref(), Some("curl/8.0"));
    assert_eq!(stats.visits[0].visited_at, 42);
}

#[test]
fn invalid_requests_refused() {
    let mut store = Store::new();
    let r = allocate(&mut store, &req("not a url", None, None), 1);
    assert!(matches!(r, Err(AppError::InvalidUrl)));

    let r = allocate(&mut store, &req("https://example.com", Some("ab"), None), 1);
    assert!(matches!(r, Err(AppError::InvalidUrl)));

    let long = "x".repeat(21);
    let r = allocate(&mut store, &req("https://example.com", Some(&long), None), 1);
    assert!(matches!(r, Err(AppError::InvalidUrl)));
}

#[test]
fn response_constructs_short_url() {
    let mut store = Store::new();
    let rec = allocate(&mut store, &req("https://example.com", Some("promo2"), Some(99)), 1)
        .unwrap();
    let resp = build_response(&rec, &"http://localhost:3000".to_string());
    assert_eq!(resp.short_code, "promo2");
    assert_eq!(resp.original_url, "https://example.com");
    assert_eq!(resp.short_url, "http://localhost:3000/promo2");
    assert_eq!(resp.expires_at, Some(99));
}
