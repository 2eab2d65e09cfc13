//! The end-to-end dispatch scenario: one route, one typed callback, and the
//! four response classes a peer can see.

use std::sync::atomic::{AtomicU64, Ordering};
use std::sync::Arc;

use sep2_client::pubsub::{
    handle_notif, HttpMethod, RouteDecision, Router, SEPResponse,
};
use sep2_common::packages::drlc::EndDeviceControl;
use sep2_common::packages::pubsub::Notification;

fn valid_body() -> String {
    let mut notif = Notification::<EndDeviceControl>::default();
    notif.resource = Some(EndDeviceControl::default());
    sep2_common::serialize(&notif).expect("serializes")
}

#[test]
fn end_device_control_route_scenario() {
    let hits = Arc::new(AtomicU64::new(0));
    let h = hits.clone();
    let cb = move |_n: Notification<EndDeviceControl>| -> SEPResponse {
        h.fetch_add(1, Ordering::Relaxed);
        SEPResponse::Created(None)
    };

    let mut router = Router::new();
    let slot = router.register("/dr".to_string());
    let body = valid_body();

    // A write-method request with a valid body reaches the slot, decodes,
    // and returns the callback's response after exactly one invocation.
    match router.router(HttpMethod::Post, "/dr") {
        RouteDecision::Invoke(id) => {
            assert_eq!(id, slot);
            let (resp, decode_err) = handle_notif::<Notification<EndDeviceControl>, _>(&cb, &body);
            assert!(decode_err.is_none());
            assert_eq!(resp, SEPResponse::Created(None));
            assert_eq!(hits.load(Ordering::Relaxed), 1);
        }
        other => panic!("expected an invocation, got {other:?}"),
    }

    // The same body under a read-only method is refused by method alone.
    assert_eq!(
        router.router(HttpMethod::Get, "/dr"),
        RouteDecision::Respond(SEPResponse::MethodNotAllowed("POST"))
    );
    assert_eq!(hits.load(Ordering::Relaxed), 1);

    // An invalid body on the registered path is a bodyless bad request and
    // never reaches the callback.
    match router.router(HttpMethod::Post, "/dr") {
        RouteDecision::Invoke(_) => {
            let (resp, decode_err) = handle_notif::<Notification<EndDeviceControl>, _>(&cb, "not xml");
            assert!(decode_err.is_some());
            assert_eq!(resp, SEPResponse::BadRequest(None));
            assert_eq!(hits.load(Ordering::Relaxed), 1);
        }
        other => panic!("expected an invocation, got {other:?}"),
    }

    // Any request to an unregistered path is not found.
    assert_eq!(
        router.router(HttpMethod::Post, "/unknown"),
        RouteDecision::Respond(SEPResponse::NotFound)
    );
    assert_eq!(
        router.router(HttpMethod::Get, "/unknown"),
        RouteDecision::Respond(SEPResponse::NotFound)
    );
}
