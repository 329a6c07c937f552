use retrommo_fetch::get_leaderboard;
use retrommo_fetch::leaderboard::{step_to_item, Leaderboard};

#[test]
fn fresh_pager_starts_before_page_one() {
    let lb = Leaderboard::new();
    assert_eq!(lb.current_page(), 0);
    assert!(lb.entries.is_empty());
}

#[test]
fn get_leaderboard_yields_fresh_pager() {
    let lb = get_leaderboard();
    assert_eq!(lb.current_page(), 0);
}

#[test]
fn default_pager_matches_new() {
    let lb = Leaderboard::default();
    assert_eq!(lb.current_page(), 0);
    assert!(lb.entries.is_empty());
}

#[test]
fn counter_counts_advances() {
    let mut lb = Leaderboard::new();
    assert_eq!(lb.begin_fetch(), 1);
    let _ = lb.consume_response(Some("[]"));
    assert_eq!(lb.begin_fetch(), 2);
    let _ = lb.consume_response(None);
    assert_eq!(lb.begin_fetch(), 3);
    assert_eq!(lb.current_page(), 3);
}

#[test]
fn advance_after_end_queries_strictly_higher_page() {
    let mut lb = Leaderboard::new();
    let first = lb.begin_fetch();
    let outcome = lb.consume_response(Some("[]"));
    assert!(matches!(outcome, Ok(None)));
    let second = lb.begin_fetch();
    assert!(second > first);
    assert_eq!(second, first + 1);
}

#[test]
fn whitespace_around_empty_page_still_signals_the_end() {
    let mut lb = Leaderboard::new();
    lb.begin_fetch();
    let outcome = lb.consume_response(Some(" [ ] "));
    assert!(matches!(outcome, Ok(None)));
}

#[test]
fn transport_failure_keeps_counter_and_cursor() {
    let mut lb = Leaderboard::new();
    lb.begin_fetch();
    let outcome = lb.consume_response(None);
    match outcome {
        Err(e) => {
            assert_eq!(e.code, 500);
            assert_eq!(e.message.as_deref(), Some("Failed to get leaderboard"));
        }
        Ok(_) => panic!("a missing body must fail"),
    }
    assert_eq!(lb.current_page(), 1);
    assert!(lb.entries.is_empty());
}

#[test]
fn decode_failure_is_an_error_not_a_signal() {
    let mut lb = Leaderboard::new();
    lb.begin_fetch();
    let outcome = lb.consume_response(Some("not json"));
    match outcome {
        Err(e) => {
            assert_eq!(e.code, 500);
            assert_eq!(e.message.as_deref(), Some("Failed to parse leaderboard"));
        }
        Ok(_) => panic!("a malformed body must fail"),
    }
}

#[test]
fn nonempty_page_is_returned_and_cached() {
    let mut lb = Leaderboard::new();
    lb.begin_fetch();
    let body = "[{\"experience\":500,\"permissions\":0,\"username\":\"Alice\"}]";
    let outcome = lb.consume_response(Some(body));
    match outcome {
        Ok(Some(page)) => {
            assert_eq!(page.len(), 1);
            assert_eq!(page[0].username, "Alice");
            assert_eq!(page[0].experience, 500);
            assert_eq!(page[0].permissions, 0);
        }
        _ => panic!("a one-entry body must yield a page"),
    }
    assert_eq!(lb.entries.len(), 1);
    assert_eq!(lb.entries[0].username, "Alice");
}

#[test]
fn idempotent_reads_from_independent_pagers() {
    let body = "[{\"experience\":500,\"permissions\":0,\"username\":\"Alice\"},{\"experience\":90,\"permissions\":1,\"username\":\"Bob\"}]";
    let mut a = Leaderboard::new();
    let mut b = Leaderboard::new();
    let page_a = a.begin_fetch();
    let page_b = b.begin_fetch();
    assert_eq!(page_a, page_b);
    let ra = a.consume_response(Some(body)).unwrap().unwrap();
    let rb = b.consume_response(Some(body)).unwrap().unwrap();
    assert_eq!(ra.len(), rb.len());
    for (x, y) in ra.iter().zip(rb.iter()) {
        assert_eq!(x.username, y.username);
        assert_eq!(x.experience, y.experience);
        assert_eq!(x.permissions, y.permissions);
    }
}

#[test]
fn repeated_advances_yield_all_pages_in_order() {
    let mut lb = Leaderboard::new();
    let bodies = [
        "[{\"experience\":2,\"permissions\":0,\"username\":\"A\"}]",
        "[{\"experience\":1,\"permissions\":0,\"username\":\"B\"}]",
        "[]",
    ];
    let mut seen = Vec::new();
    for body in bodies {
        lb.begin_fetch();
        match lb.consume_response(Some(body)) {
            Ok(Some(page)) => {
                for entry in page {
                    seen.push(entry.username.clone());
                }
            }
            Ok(None) => break,
            Err(_) => panic!("these bodies all decode"),
        }
    }
    assert_eq!(seen, vec!["A".to_string(), "B".to_string()]);
    assert_eq!(lb.current_page(), 3);
}

#[test]
fn step_to_item_maps_the_three_outcomes() {
    let end = step_to_item(Ok(None));
    assert!(end.is_none());

    let page = step_to_item(Ok(Some(Vec::new())));
    assert!(matches!(page, Some(Ok(_))));

    let failure = step_to_item(Err(retrommo_fetch::error::Error::new(500, None)));
    assert!(matches!(failure, Some(Err(_))));
}
