use ads_stream::model::Context;
use ads_stream::scoring::generate_ads;
use ads_stream::server::{deferred_reply, AdsServiceImpl, Session, DEFERRED_VERSION};

fn request(understanding: &str) -> Context {
    Context::new("coffee maker".to_string(), "B000123".to_string(), understanding.to_string())
}

#[test]
fn replies_carry_arrival_order_as_version() {
    let mut s = Session::new(7);
    let mut deferred = Vec::new();
    for n in 1..=5u32 {
        let out = s.on_request(request("x"));
        assert_eq!(out.reply.version, n);
        if let Some(c) = out.deferred {
            deferred.push((n, c));
        }
    }
    assert_eq!(s.request_count(), 5);
    assert_eq!(deferred.len(), 1);
    assert_eq!(deferred[0].0, 2);
    assert_eq!(deferred[0].1, request("x"));
}

#[test]
fn single_request_schedules_nothing() {
    let mut s = Session::new(1);
    let out = s.on_request(request(""));
    assert_eq!(out.reply.version, 1);
    assert!(out.deferred.is_none());
    s.on_end();
    assert!(!s.is_open());
}

#[test]
fn deferred_reply_uses_second_request_at_version_three() {
    let mut s = Session::new(1);
    s.on_request(request(""));
    let out = s.on_request(request("x"));
    let ctx = out.deferred.unwrap();
    let late = deferred_reply(&ctx);
    assert_eq!(late.version, DEFERRED_VERSION);
    assert_eq!(late, generate_ads(&request("x"), 3));
}

#[test]
fn third_request_gives_two_version_three_replies() {
    let mut s = Session::new(1);
    s.on_request(request(""));
    let second = s.on_request(request("x"));
    let third = s.on_request(request("x"));
    let late = deferred_reply(&second.deferred.unwrap());
    assert_eq!(third.reply.version, 3);
    assert_eq!(late.version, 3);
    assert!(third.deferred.is_none());
}

#[test]
fn reply_matches_the_engine() {
    let mut s = Session::new(1);
    let out = s.on_request(request("abc"));
    assert_eq!(out.reply, generate_ads(&request("abc"), 1));
}

#[test]
fn error_is_forwarded_once() {
    let mut s = Session::new(3);
    s.on_request(request(""));
    assert!(s.on_error());
    assert!(!s.is_open());
    assert!(!s.on_error());
    assert_eq!(s.session_id(), 3);
}

#[test]
fn sessions_are_numbered_from_one_upwards() {
    let service = AdsServiceImpl::new();
    let a = service.open_session().unwrap();
    let b = service.open_session().unwrap();
    let c = service.open_session().unwrap();
    assert_eq!(a.session_id(), 1);
    assert_eq!(b.session_id(), 2);
    assert_eq!(c.session_id(), 3);
    assert_eq!(a.request_count(), 0);
}

#[test]
fn session_numbers_run_out_at_the_top() {
    assert!(Session::after(u64::MAX).is_none());
    assert_eq!(Session::after(41).unwrap().session_id(), 42);
}
