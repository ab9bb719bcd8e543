//! The network lease: server, client and their frames.

use banc::lease::{LeaseReply, LeaseRequest, LeaseServer, DEFAULT_TTL_S, SECOND};
use banc::lease_client::{
    query_status, AcquireError, AcquireStep, Interruption, LeaseClient, RenewStep, Turn, Wake,
    RENEW_PERIOD,
};

fn acquire(srv: &mut LeaseServer, holder: &str, ttl_s: u32, now: u64) -> LeaseReply {
    srv.handle(LeaseRequest::Acquire { holder: holder.to_string(), ttl_s }, now)
}

fn granted(reply: LeaseReply) -> u64 {
    match reply {
        LeaseReply::Granted { id } => id,
        other => panic!("not granted: {other:?}"),
    }
}

#[test]
fn lease_excludes_second_holder_until_released() {
    let mut srv = LeaseServer::new();
    let LeaseReply::Granted { id } = acquire(&mut srv, "a", 60, 0) else {
        panic!("first acquire must be granted");
    };
    assert!(matches!(acquire(&mut srv, "b", 60, 0), LeaseReply::Busy { .. }));
    assert!(matches!(srv.handle(LeaseRequest::Renew { id }, 0), LeaseReply::Acked));
    srv.handle(LeaseRequest::Release { id }, 0);
    assert!(matches!(acquire(&mut srv, "b", 60, 0), LeaseReply::Granted { .. }));
}

#[test]
fn expired_lease_is_displaced_and_stale_renew_refused() {
    let mut srv = LeaseServer::new();
    let LeaseReply::Granted { id: stale } = acquire(&mut srv, "a", 5, 0) else {
        panic!("first acquire must be granted");
    };
    let later = 6 * SECOND;
    assert!(matches!(acquire(&mut srv, "b", 60, later), LeaseReply::Granted { .. }));
    assert!(matches!(srv.handle(LeaseRequest::Renew { id: stale }, later), LeaseReply::Gone));
}

#[test]
fn busy_names_the_holder_and_when_to_come_back() {
    let mut srv = LeaseServer::default();
    granted(acquire(&mut srv, "a", 60, 0));
    match acquire(&mut srv, "b", 60, 10 * SECOND) {
        LeaseReply::Busy { holder, expires_in_s } => {
            assert_eq!(holder, "a");
            assert_eq!(expires_in_s, 50);
        }
        other => panic!("unexpected: {other:?}"),
    }
    // What is left is in whole seconds.
    match acquire(&mut srv, "b", 60, 10 * SECOND + 1) {
        LeaseReply::Busy { expires_in_s, .. } => assert_eq!(expires_in_s, 49),
        other => panic!("unexpected: {other:?}"),
    }
}

#[test]
fn every_lease_ends_at_its_time() {
    let mut srv = LeaseServer::new();
    granted(acquire(&mut srv, "a", 60, 0));
    assert_eq!(srv.holder(60 * SECOND - 1).as_deref(), Some("a"));
    assert_eq!(srv.holder(60 * SECOND), None);
}

#[test]
fn times_to_live_are_kept_in_bounds() {
    // At least five seconds, at most an hour.
    let mut srv = LeaseServer::new();
    granted(acquire(&mut srv, "a", 0, 0));
    assert_eq!(srv.holder(5 * SECOND - 1).as_deref(), Some("a"));
    assert_eq!(srv.holder(5 * SECOND), None);
    granted(acquire(&mut srv, "b", u32::MAX, 5 * SECOND));
    assert_eq!(srv.holder(3605 * SECOND - 1).as_deref(), Some("b"));
    assert_eq!(srv.holder(3605 * SECOND), None);
}

#[test]
fn renewal_restarts_the_time() {
    let mut srv = LeaseServer::new();
    let id = granted(acquire(&mut srv, "a", 60, 0));
    assert!(matches!(srv.handle(LeaseRequest::Renew { id }, 59 * SECOND), LeaseReply::Acked));
    assert_eq!(srv.holder(119 * SECOND - 1).as_deref(), Some("a"));
    assert_eq!(srv.holder(119 * SECOND), None);
    assert!(matches!(srv.handle(LeaseRequest::Renew { id }, 119 * SECOND), LeaseReply::Gone));
}

#[test]
fn release_frees_only_its_own_lease() {
    let mut srv = LeaseServer::new();
    let id = granted(acquire(&mut srv, "a", 60, 0));
    assert!(matches!(srv.handle(LeaseRequest::Release { id: id + 1 }, 0), LeaseReply::Acked));
    assert_eq!(srv.holder(0).as_deref(), Some("a"));
    assert!(matches!(srv.handle(LeaseRequest::Release { id }, 0), LeaseReply::Acked));
    assert_eq!(srv.holder(0), None);
    assert!(matches!(srv.handle(LeaseRequest::Release { id }, 0), LeaseReply::Acked));
    assert!(matches!(srv.handle(LeaseRequest::Renew { id }, 0), LeaseReply::Gone));
}

#[test]
fn lease_ids_are_never_reused() {
    let mut srv = LeaseServer::new();
    let first = granted(acquire(&mut srv, "a", 60, 0));
    srv.handle(LeaseRequest::Release { id: first }, 0);
    let second = granted(acquire(&mut srv, "a", 60, 0));
    assert!(second != first);
    let third = granted(acquire(&mut srv, "c", 60, 60 * SECOND));
    assert!(third != first && third != second);
}

#[test]
fn the_clock_may_read_anything() {
    let mut srv = LeaseServer::new();
    let id = granted(acquire(&mut srv, "a", 60, u64::MAX));
    assert_eq!(srv.holder(u64::MAX).as_deref(), Some("a"));
    assert!(matches!(srv.handle(LeaseRequest::Renew { id }, u64::MAX), LeaseReply::Acked));
    match acquire(&mut srv, "b", 60, u64::MAX) {
        LeaseReply::Busy { expires_in_s, .. } => assert_eq!(expires_in_s, 60),
        other => panic!("unexpected: {other:?}"),
    }
}

#[test]
fn lease_messages_have_their_encoding() {
    let ask = LeaseRequest::Acquire { holder: "ab".to_string(), ttl_s: 300 };
    assert_eq!(ask.encode(), vec![0, 2, b'a', b'b', 0xac, 0x02]);
    assert_eq!(LeaseRequest::Renew { id: 7 }.encode(), vec![1, 7]);
    assert_eq!(LeaseRequest::Release { id: 200 }.encode(), vec![2, 0xc8, 0x01]);
    assert_eq!(LeaseReply::Granted { id: 1 }.encode(), vec![0, 1]);
    let busy = LeaseReply::Busy { holder: "x".to_string(), expires_in_s: 9 };
    assert_eq!(busy.encode(), vec![1, 1, b'x', 9]);
    assert_eq!(LeaseReply::Acked.encode(), vec![2]);
    assert_eq!(LeaseReply::Gone.encode(), vec![3]);
    assert_eq!(LeaseRequest::Status.encode(), vec![3]);
    let held = LeaseReply::Status { current: Some("x".to_string()), left_s: 9 };
    assert_eq!(held.encode(), vec![4, 1, 1, b'x', 9]);
    assert_eq!(LeaseReply::Status { current: None, left_s: 0 }.encode(), vec![4, 0, 0]);
}

#[test]
fn lease_messages_read_back() {
    let frame = LeaseRequest::Acquire { holder: "b\u{e4}nk".to_string(), ttl_s: 60 }.encode();
    match LeaseRequest::decode(&frame) {
        Ok(LeaseRequest::Acquire { holder, ttl_s }) => {
            assert_eq!(holder, "b\u{e4}nk");
            assert_eq!(ttl_s, 60);
        }
        other => panic!("unexpected: {other:?}"),
    }
    let frame = LeaseRequest::Renew { id: u64::MAX }.encode();
    assert!(matches!(LeaseRequest::decode(&frame), Ok(LeaseRequest::Renew { id: u64::MAX })));
    let frame = LeaseReply::Busy { holder: String::new(), expires_in_s: u32::MAX }.encode();
    match LeaseReply::decode(&frame) {
        Ok(LeaseReply::Busy { holder, expires_in_s }) => {
            assert_eq!(holder, "");
            assert_eq!(expires_in_s, u32::MAX);
        }
        other => panic!("unexpected: {other:?}"),
    }
    assert!(matches!(LeaseReply::decode(&[3]), Ok(LeaseReply::Gone)));
    assert!(matches!(LeaseRequest::decode(&[3]), Ok(LeaseRequest::Status)));
    for current in [None, Some("ci".to_string())] {
        let frame = LeaseReply::Status { current: current.clone(), left_s: 300 }.encode();
        match LeaseReply::decode(&frame) {
            Ok(LeaseReply::Status { current: back, left_s }) => {
                assert_eq!(back, current);
                assert_eq!(left_s, 300);
            }
            other => panic!("unexpected: {other:?}"),
        }
    }
}

#[test]
fn unreadable_lease_messages_say_why() {
    let ended = "Hit the end of buffer, expected more data";
    let endless = "Found a varint that didn't terminate. Is the usize too big for this platform?";
    let asked = |frame: &[u8]| LeaseRequest::decode(frame).unwrap_err();
    let answered = |frame: &[u8]| LeaseReply::decode(frame).unwrap_err();
    assert_eq!(asked(&[]), ended);
    assert_eq!(asked(&[1]), ended);
    assert_eq!(asked(&[4]), "Serde Deserialization Error");
    assert_eq!(asked(&[0, 1, 0xff, 5]), "Tried to parse invalid utf-8");
    assert_eq!(asked(&[0, 5, b'a', b'b']), ended);
    assert_eq!(asked(&[0, 1, b'a', 0x80]), ended);
    assert_eq!(asked(&[0x80, 0x80, 0x80, 0x80, 0x80]), endless);
    assert_eq!(asked(&[0x80, 0x80, 0x80, 0x80, 0x10]), endless);
    assert_eq!(asked(&[1, 0xff, 0xff, 0xff, 0xff, 0xff, 0xff, 0xff, 0xff, 0xff, 2]), endless);
    assert_eq!(answered(&[5]), "Serde Deserialization Error");
    assert_eq!(answered(&[0]), ended);
    assert_eq!(answered(&[1, 0]), ended);
    assert_eq!(answered(&[4]), ended);
    assert_eq!(answered(&[4, 2]), "Found an Option discriminant that wasn't 0 or 1");
    assert_eq!(answered(&[4, 1, 1, 0xff]), "Tried to parse invalid utf-8");
    assert_eq!(answered(&[4, 0]), ended);
}

#[test]
fn a_session_answers_frame_by_frame() {
    let mut srv = LeaseServer::new();
    let ask = LeaseRequest::Acquire { holder: "a".to_string(), ttl_s: 60 }.encode();
    let reply = srv.serve_conn(&ask, 0).unwrap();
    let id = granted(LeaseReply::decode(&reply).unwrap());
    let reply = srv.serve_conn(&LeaseRequest::Renew { id }.encode(), SECOND).unwrap();
    assert!(matches!(LeaseReply::decode(&reply), Ok(LeaseReply::Acked)));
    assert_eq!(srv.serve_conn(&[9, 9], SECOND).unwrap_err(), "Serde Deserialization Error");
    assert_eq!(srv.holder(SECOND).as_deref(), Some("a"));
}

#[test]
fn a_look_at_the_lease_does_not_contend() {
    let mut srv = LeaseServer::new();
    let free = query_status(srv.handle(LeaseRequest::Status, 0)).unwrap();
    assert_eq!((free.holder, free.expires_in_s), (None, 0));
    granted(acquire(&mut srv, "a", 60, 0));
    let held = query_status(srv.handle(LeaseRequest::Status, 10 * SECOND)).unwrap();
    assert_eq!((held.holder.as_deref(), held.expires_in_s), (Some("a"), 50));
    let over = query_status(srv.handle(LeaseRequest::Status, 60 * SECOND)).unwrap();
    assert_eq!(over.holder, None);
    assert_eq!(query_status(LeaseReply::Gone).unwrap_err(), "unexpected reply to Status");
}

#[test]
fn a_broken_connection_leads_to_a_new_lease() {
    let mut srv = LeaseServer::new();
    let mut client = LeaseClient { id: granted(acquire(&mut srv, "a", 60, 0)) };
    let before = client.id;
    let cause = match LeaseClient::renewed(Err("broken pipe".to_string())) {
        RenewStep::Reacquire(cause) => cause,
        other => panic!("unexpected: {other:?}"),
    };
    // On the new connection, with the old lease still in force.
    let mut last = None;
    for request in client.ask_anew(&cause, "a".to_string()) {
        last = Some(srv.handle(request, 20 * SECOND));
    }
    let id = LeaseClient::reacquire(last.unwrap()).map_err(|e| e.to_string());
    assert_eq!(client.adopt(id, &cause), None);
    assert!(client.id != before);
    let renew = LeaseRequest::Renew { id: client.id };
    assert!(matches!(srv.handle(renew, 40 * SECOND), LeaseReply::Acked));
    assert!(matches!(srv.handle(LeaseRequest::Renew { id: before }, 40 * SECOND), LeaseReply::Gone));
    // Where someone else got the rig in between, they keep it.
    let mut late = LeaseClient { id: before };
    let mut last = None;
    for request in late.ask_anew(&cause, "late".to_string()) {
        last = Some(srv.handle(request, 41 * SECOND));
    }
    let id = LeaseClient::reacquire(last.unwrap()).map_err(|e| e.to_string());
    assert_eq!(
        late.adopt(id, &cause).as_deref(),
        Some("banc: lease reconnect failed: lease now held by 'a'")
    );
    assert_eq!(srv.holder(41 * SECOND).as_deref(), Some("a"));
}

#[test]
fn only_a_live_lease_is_given_back() {
    let client = LeaseClient { id: 7 };
    let (first, second) = client.resume("me".to_string());
    assert!(matches!(first, LeaseRequest::Release { id: 7 }));
    assert!(matches!(second, LeaseRequest::Acquire { ttl_s: DEFAULT_TTL_S, .. }));
    let expired = client.ask_anew(&Interruption::Expired, "me".to_string());
    assert_eq!(expired.len(), 1);
    assert!(matches!(&expired[0], LeaseRequest::Acquire { holder, .. } if holder == "me"));
}

#[test]
fn contending_clients_take_turns() {
    let mut srv = LeaseServer::new();
    let first = match LeaseClient::acquire(
        srv.handle(LeaseClient::request("first".to_string()), 0),
        false,
        5_000_000_000,
    ) {
        AcquireStep::Held(client) => client,
        other => panic!("unexpected: {other:?}"),
    };
    // Second holder cannot get it while the first lives.
    let busy = srv.handle(LeaseClient::request("second".to_string()), SECOND);
    let contended = LeaseClient::acquire(busy, true, 100_000_000);
    match contended {
        AcquireStep::GiveUp(e) => assert_eq!(
            e.to_string(),
            "rig lease held by 'first' (expires in 59s), gave up after 100ms"
        ),
        other => panic!("second acquire must fail while first holds the lease: {other:?}"),
    }
    // Dropping the first (release on drop) frees it.
    match first.turn(Wake::Stopped) {
        Turn::Last(release) => {
            srv.handle(release, SECOND);
        }
        other => panic!("unexpected: {other:?}"),
    }
    let after = srv.handle(LeaseClient::request("second".to_string()), SECOND);
    assert!(matches!(
        LeaseClient::acquire(after, false, 5_000_000_000),
        AcquireStep::Held(_)
    ));
}

#[test]
fn clients_ask_for_the_default_time() {
    match LeaseClient::request("me".to_string()) {
        LeaseRequest::Acquire { holder, ttl_s } => {
            assert_eq!(holder, "me");
            assert_eq!(ttl_s, DEFAULT_TTL_S);
        }
        other => panic!("unexpected: {other:?}"),
    }
}

#[test]
fn busy_is_retried_until_the_deadline() {
    let busy = || LeaseReply::Busy { holder: "a".to_string(), expires_in_s: 3 };
    assert!(matches!(LeaseClient::acquire(busy(), false, 0), AcquireStep::Retry));
    assert!(matches!(
        LeaseClient::acquire(busy(), true, 0),
        AcquireStep::GiveUp(AcquireError::Contended { .. })
    ));
}

#[test]
fn unexpected_replies_end_an_acquisition() {
    match LeaseClient::acquire(LeaseReply::Acked, false, 0) {
        AcquireStep::GiveUp(e) => assert_eq!(e.to_string(), "unexpected reply to Acquire: Ok"),
        other => panic!("unexpected: {other:?}"),
    }
    match LeaseClient::acquire(LeaseReply::Gone, false, 0) {
        AcquireStep::GiveUp(e) => assert_eq!(e.to_string(), "unexpected reply to Acquire: Gone"),
        other => panic!("unexpected: {other:?}"),
    }
    match LeaseClient::acquire(LeaseReply::Status { current: None, left_s: 0 }, false, 0) {
        AcquireStep::GiveUp(e) => assert_eq!(e.to_string(), "unexpected reply to Acquire: Status"),
        other => panic!("unexpected: {other:?}"),
    }
}

#[test]
fn one_missed_renewal_does_no_harm() {
    let mut srv = LeaseServer::new();
    let client = match LeaseClient::acquire(
        srv.handle(LeaseClient::request("a".to_string()), 0),
        false,
        0,
    ) {
        AcquireStep::Held(client) => client,
        other => panic!("unexpected: {other:?}"),
    };
    // The renewal due after one period is missed; the next one is in time.
    match client.turn(Wake::Due) {
        Turn::Ask(renew) => {
            let reply = srv.handle(renew, 2 * RENEW_PERIOD);
            assert!(matches!(LeaseClient::renewed(Ok(reply)), RenewStep::Keep));
        }
        other => panic!("unexpected: {other:?}"),
    }
}

#[test]
fn a_renewing_holder_is_never_displaced() {
    let mut srv = LeaseServer::new();
    let id = granted(acquire(&mut srv, "a", 60, 0));
    for n in 1..=100u64 {
        let now = n * RENEW_PERIOD;
        assert!(matches!(acquire(&mut srv, "b", 60, now - 1), LeaseReply::Busy { .. }));
        assert!(matches!(srv.handle(LeaseRequest::Release { id: id + n }, now), LeaseReply::Acked));
        assert!(matches!(srv.handle(LeaseRequest::Renew { id }, now), LeaseReply::Acked));
    }
}

#[test]
fn two_missed_renewals_keep_others_out() {
    let mut srv = LeaseServer::new();
    let id = granted(srv.handle(LeaseClient::request("a".to_string()), 0));
    let due = 3 * RENEW_PERIOD;
    assert!(matches!(acquire(&mut srv, "b", 60, due - 1), LeaseReply::Busy { .. }));
    // The third renewal comes too late, but nobody else asked first.
    assert!(matches!(srv.handle(LeaseRequest::Renew { id }, due), LeaseReply::Gone));
    granted(srv.handle(LeaseClient::request("a".to_string()), due));
}

#[test]
fn a_lost_lease_is_acquired_again() {
    let mut srv = LeaseServer::new();
    let mut client = LeaseClient { id: granted(acquire(&mut srv, "a", 5, 0)) };
    let before = client.id;
    let reply = srv.handle(LeaseRequest::Renew { id: before }, 5 * SECOND);
    let cause = match LeaseClient::renewed(Ok(reply)) {
        RenewStep::Reacquire(cause) => cause,
        other => panic!("unexpected: {other:?}"),
    };
    assert_eq!(cause.to_string(), "banc: rig lease expired mid-run; re-acquiring");
    let again = srv.handle(LeaseClient::request("a".to_string()), 5 * SECOND);
    let id = LeaseClient::reacquire(again);
    assert!(id.is_ok());
    let problem = client.adopt(id.map_err(|e| e.to_string()), &cause);
    assert_eq!(problem, None);
    assert!(client.id != before);
}

#[test]
fn a_lease_that_went_to_someone_else_is_reported() {
    let mut client = LeaseClient { id: 4 };
    let busy = LeaseReply::Busy { holder: "b".to_string(), expires_in_s: 1 };
    let err = LeaseClient::reacquire(busy).unwrap_err();
    assert_eq!(err.to_string(), "lease now held by 'b'");
    let text = err.to_string();
    assert_eq!(
        client.adopt(Err(text.clone()), &Interruption::Expired).as_deref(),
        Some("banc: rig lease lost and re-acquire failed: lease now held by 'b'")
    );
    let broken = Interruption::Broken("eof".to_string());
    assert_eq!(broken.to_string(), "banc: lease renew failed (eof); reconnecting");
    assert_eq!(
        client.adopt(Err(text), &broken).as_deref(),
        Some("banc: lease reconnect failed: lease now held by 'b'")
    );
    assert_eq!(client.id, 4);
    assert!(matches!(LeaseClient::reacquire(LeaseReply::Granted { id: 9 }), Ok(9)));
    assert!(matches!(LeaseClient::reacquire(LeaseReply::Acked), Err(AcquireError::OnlyAcked)));
    assert!(matches!(LeaseClient::reacquire(LeaseReply::Gone), Err(AcquireError::OnlyGone)));
}

#[test]
fn renewals_that_fail_reconnect() {
    assert!(matches!(
        LeaseClient::renewed(Err("broken pipe".to_string())),
        RenewStep::Reacquire(Interruption::Broken(_))
    ));
    assert!(matches!(
        LeaseClient::renewed(Ok(LeaseReply::Granted { id: 1 })),
        RenewStep::Report(LeaseReply::Granted { id: 1 })
    ));
}
