//! The options carry across, and the defaults are upstream's defaults.

use modelpipe::ConnectOptions;
use modelpipe_ffi::MpConnectOptions;

#[test]
fn the_defaults_match_modelpipes_own() {
    let mine = MpConnectOptions::default();
    let theirs = ConnectOptions::default();

    assert_eq!(mine.loopback_bind().is_none(), theirs.bind.is_none(), "bind");
    assert_eq!(mine.relay_url, theirs.relay, "relay");
    assert_eq!(
        mine.port_mapping, theirs.port_mapping,
        "port mapping is on by default upstream"
    );
    assert_eq!(
        mine.discovery, theirs.discovery,
        "discovery is on by default upstream"
    );
    assert_eq!(mine.relay_only, theirs.relay_only, "relay_only");
    assert_eq!(mine.identity_dir.is_none(), theirs.identity.is_none());
}

#[test]
fn a_requested_port_binds_loopback_and_only_loopback() {
    let bind = MpConnectOptions {
        port: Some(8080),
        ..MpConnectOptions::default()
    }
    .loopback_bind()
    .expect("a port was asked for");

    assert_eq!(bind.1, 8080);
    assert_eq!(
        bind.0,
        (127, 0, 0, 1),
        "a requested port must not reach the network: {bind:?}"
    );
}

#[test]
fn no_port_asked_for_is_no_bind_at_all() {
    assert!(MpConnectOptions::default().loopback_bind().is_none());
}

#[test]
fn every_switch_is_carried_across() {
    let options = MpConnectOptions {
        port: None,
        relay_url: Some("https://relay.example".to_owned()),
        port_mapping: false,
        discovery: false,
        relay_only: true,
        identity_dir: None,
    };

    assert_eq!(options.relay_url.as_deref(), Some("https://relay.example"));
    assert!(!options.port_mapping);
    assert!(!options.discovery);
    assert!(options.relay_only);
    assert!(options.loopback_bind().is_none());
}
