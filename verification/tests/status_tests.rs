//! The mirrored value types round-trip, and mirror the app's own names.

use modelpipe::{CloseReason, PipeStatus};
use modelpipe_ffi::{MpCloseReason, MpNetworkMetrics, MpPipe, MpPipeStatus, MpWatch, WaitOutcome};

#[test]
fn every_status_round_trips_through_modelpipes_own_enum() {
    for (mine, theirs) in [
        (MpPipeStatus::Idle, PipeStatus::Idle),
        (MpPipeStatus::Direct, PipeStatus::Direct),
        (MpPipeStatus::Relayed, PipeStatus::Relayed),
        (MpPipeStatus::Closed, PipeStatus::Closed),
    ] {
        assert_eq!(
            MpPipeStatus::from(theirs),
            mine,
            "{theirs:?} maps to {mine:?}"
        );
        assert_eq!(mine.into_pipe_status(), theirs, "{mine:?} maps back");
    }
}

#[test]
fn the_status_names_match_the_apps_own_enum() {
    let names: Vec<String> = [
        MpPipeStatus::Idle,
        MpPipeStatus::Direct,
        MpPipeStatus::Relayed,
        MpPipeStatus::Closed,
    ]
    .iter()
    .map(|status| format!("{status:?}").to_lowercase())
    .collect();

    assert_eq!(
        names,
        vec!["idle", "direct", "relayed", "closed"],
        "GGChatCore.PipeStatus declares exactly these, in this order"
    );
}

#[test]
fn every_close_reason_round_trips() {
    assert_eq!(
        MpCloseReason::from(CloseReason::Shutdown),
        MpCloseReason::Shutdown
    );
    assert_eq!(
        MpCloseReason::from(CloseReason::ListenerFailed),
        MpCloseReason::ListenerFailed
    );
}

#[test]
fn the_metrics_are_not_transposed() {
    let metrics = MpNetworkMetrics {
        relay_connections: 1,
        relay_connections_failed: 2,
        relay_connections_ratelimited: 3,
    };

    assert_eq!(metrics.relay_connections, 1);
    assert_eq!(metrics.relay_connections_failed, 2);
    assert_eq!(metrics.relay_connections_ratelimited, 3);
    assert_eq!(
        MpNetworkMetrics::default(),
        MpNetworkMetrics {
            relay_connections: 0,
            relay_connections_failed: 0,
            relay_connections_ratelimited: 0
        },
        "a default reading is three zeroes, not an absent one"
    );
}

/// modelpipe's counters land in their own fields.
#[test]
fn upstream_metrics_land_in_their_own_fields() {
    let mut theirs = modelpipe::NetworkMetrics::default();
    theirs.relay_connections = 7;
    theirs.relay_connections_failed = 8;
    theirs.relay_connections_ratelimited = 9;
    assert_eq!(MpNetworkMetrics::from(theirs), MpNetworkMetrics::from_network_metrics(theirs));
    assert_eq!(
        MpNetworkMetrics::from_network_metrics(theirs),
        MpNetworkMetrics {
            relay_connections: 7,
            relay_connections_failed: 8,
            relay_connections_ratelimited: 9
        }
    );
}

/// A wait answers the status it was woken for, and `None` ends the
/// sequence.
#[test]
fn a_wait_answers_the_new_status_or_ends() {
    assert_eq!(
        MpPipe::change_answer(Some(PipeStatus::Relayed)),
        Some(MpPipeStatus::Relayed)
    );
    assert_eq!(
        MpPipe::change_answer(Some(PipeStatus::Closed)),
        Some(MpPipeStatus::Closed)
    );
    assert_eq!(MpPipe::change_answer(None), None);
}

/// A cancelled watch answers `None`, even with a change ready.
#[test]
fn a_cancelled_watch_answers_none_even_with_a_change_ready() {
    assert_eq!(MpWatch::answer(WaitOutcome::Cancelled), None);
    assert_eq!(
        MpWatch::answer(WaitOutcome::Changed(Some(PipeStatus::Direct))),
        Some(MpPipeStatus::Direct)
    );
    assert_eq!(MpWatch::answer(WaitOutcome::Changed(None)), None);
}

/// A close reason read from modelpipe crosses as itself; none while open.
#[test]
fn a_close_reason_answers_as_it_crosses() {
    assert_eq!(modelpipe_ffi::MpPipe::close_answer(None), None);
    assert_eq!(
        modelpipe_ffi::MpPipe::close_answer(Some(CloseReason::ListenerFailed)),
        Some(MpCloseReason::ListenerFailed)
    );
}
