use ads_stream::client::{deadline_ms, draw_deadline_ms, ClientCall};
use ads_stream::model::{Ad, AdsList};

fn call() -> ClientCall {
    ClientCall::new("coffee maker".to_string(), "B000123".to_string(), "x".to_string())
}

fn reply(version: u32, tag: &str) -> AdsList {
    AdsList {
        version,
        ads: vec![Ad { asin_id: "B000123".to_string(), ad_id: tag.to_string(), score_ppm: 500_000 }],
    }
}

#[test]
fn requests_differ_only_in_understanding() {
    let c = call();
    let first = c.first_request();
    let second = c.second_request();
    assert_eq!(first.query, "coffee maker");
    assert_eq!(first.asin_id, "B000123");
    assert_eq!(first.understanding, "");
    assert_eq!(second.query, "coffee maker");
    assert_eq!(second.asin_id, "B000123");
    assert_eq!(second.understanding, "x");
}

#[test]
fn nothing_received_gives_no_result() {
    assert!(call().finish().is_none());
}

#[test]
fn deadline_before_deferred_reply_gives_version_two() {
    let mut c = call();
    c.receive(reply(1, "a"));
    c.receive(reply(2, "b"));
    assert_eq!(c.finish().unwrap().version, 2);
}

#[test]
fn deadline_after_deferred_reply_gives_version_three() {
    let mut c = call();
    c.receive(reply(1, "a"));
    c.receive(reply(2, "b"));
    c.receive(reply(3, "c"));
    assert_eq!(c.finish().unwrap().version, 3);
}

#[test]
fn highest_version_wins_whatever_the_order() {
    let mut c = call();
    c.receive(reply(3, "c"));
    c.receive(reply(1, "a"));
    c.receive(reply(2, "b"));
    assert_eq!(c.buffered_versions(), 3);
    assert_eq!(c.finish().unwrap(), reply(3, "c"));
}

#[test]
fn later_reply_of_a_version_replaces_the_earlier() {
    let mut c = call();
    c.receive(reply(1, "a"));
    c.receive(reply(3, "immediate"));
    c.receive(reply(3, "deferred"));
    assert_eq!(c.buffered_versions(), 2);
    assert_eq!(c.finish().unwrap().ads[0].ad_id, "deferred");
}

#[test]
fn deadline_is_clamped_into_range() {
    assert_eq!(deadline_ms(30, -5), 30);
    assert_eq!(deadline_ms(120, 5), 120);
    assert_eq!(deadline_ms(60, 3), 63);
    assert_eq!(deadline_ms(33, -5), 30);
    assert_eq!(deadline_ms(118, 4), 120);
    assert_eq!(deadline_ms(90, -5), 85);
}

#[test]
fn drawn_deadlines_stay_in_range() {
    for _ in 0..200 {
        let d = draw_deadline_ms();
        assert!((30..=120).contains(&d));
    }
}
