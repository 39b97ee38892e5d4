//! A real pipe, dialled at a machine that is not there: what it answers
//! now, without anything reaching the far side.

use modelpipe::ConnectOptions;
use modelpipe_ffi::{parse_ticket, MpNetworkMetrics, MpPipe, MpPipeStatus};

/// modelpipe's normative ticket vector 1: names an endpoint nothing is
/// listening on.
const GOOD_TICKET: &str = "pipeadlvvgabqkyqvn6vjp7nhslea45a5yls6pnkmizfv4bbu2hxa5iruaaauhlp2na";

fn offline() -> ConnectOptions {
    let mut opts = ConnectOptions::default();
    opts.discovery = false;
    opts.port_mapping = false;
    opts
}

#[test]
fn a_dial_returns_a_bound_loopback_url_and_starts_idle() {
    let runtime = tokio::runtime::Runtime::new().expect("a runtime");
    let ticket = parse_ticket(GOOD_TICKET).expect("a ticket");
    let handle = runtime
        .block_on(modelpipe::connect(&ticket, offline()))
        .expect("the listener binds even though nothing is out there");
    let _entered = runtime.enter();
    let pipe = MpPipe::new(handle);

    let url = pipe.base_url();
    assert!(
        url.starts_with("http://127.0.0.1:"),
        "the seam requires a loopback base URL: {url}"
    );
    assert!(url.ends_with("/v1"), "the app appends nothing: {url}");
    assert_eq!(
        url,
        format!("http://127.0.0.1:{}/v1", pipe.port()),
        "the port accessor and the URL disagree"
    );
    assert_eq!(
        pipe.status(),
        MpPipeStatus::Idle,
        "a pipe with no answer yet is Idle, not Closed"
    );
    assert_eq!(pipe.close_reason(), None, "an open pipe has no close reason");
    assert_eq!(pipe.network_metrics(), MpNetworkMetrics::default());

    let id = pipe.peer_id();
    assert_eq!(id.len(), 64, "{id}");
    assert!(id.bytes().all(|b| b.is_ascii_hexdigit()), "{id}");

    let watch = pipe.watch();
    assert!(!watch.is_cancelled());
    watch.cancel();
    assert!(watch.is_cancelled(), "a cancel is seen at once");
    assert_eq!(pipe.status(), MpPipeStatus::Idle, "a cancel closes nothing");

    runtime.block_on(pipe.handle().shutdown());
    assert_eq!(pipe.status(), MpPipeStatus::Closed);
    assert_eq!(
        pipe.close_reason(),
        Some(modelpipe_ffi::MpCloseReason::Shutdown),
        "a shutdown this side asked for reports itself as one"
    );
}
