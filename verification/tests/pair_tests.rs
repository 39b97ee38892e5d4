//! What a failed pairing crosses as, and that it never renders a code.

use modelpipe::{ConnectError, PairError, Unreached};
use modelpipe_ffi::{redacted_paired, refusal_of, KeyRecovery, MpCloseReason, MpPairError, MpUnreached};
use std::time::Duration;

#[test]
fn every_pair_error_is_a_sentence() {
    let errors = [
        MpPairError::NoCode,
        MpPairError::BadPairingString {
            reason: "That pairing string could not be read (too short).".to_owned(),
        },
        MpPairError::Dial {
            reason: "The connection could not start (os error 1).".to_owned(),
            retryable: true,
        },
        MpPairError::Unreached {
            why: MpUnreached::TimedOut { within_ms: 1 },
        },
        MpPairError::Unreached {
            why: MpUnreached::Closed { reason: None },
        },
        MpPairError::Refused,
        MpPairError::Exchange {
            reason: "connection reset".to_owned(),
        },
        MpPairError::Unexpected {
            detail: "no device id".to_owned(),
        },
        MpPairError::UnexpectedStatus { status: 404 },
        MpPairError::UnexpectedStatus { status: 503 },
        MpPairError::Unknown {
            detail: "Something".to_owned(),
        },
    ];
    for error in errors {
        let message = error.message();
        assert!(
            message.ends_with('.') || message.ends_with(')'),
            "{error:?}: {message}"
        );
        assert!(!message.contains("MpPairError"), "{message}");
    }
}

#[test]
fn pair_tests_only_the_failures_that_could_pass_next_time_are_retryable() {
    assert!(!MpPairError::NoCode.is_retryable());
    assert!(
        !MpPairError::BadPairingString {
            reason: String::new()
        }
        .is_retryable()
    );
    assert!(!MpPairError::Refused.is_retryable());
    assert!(
        !MpPairError::Unexpected {
            detail: String::new()
        }
        .is_retryable()
    );
    assert!(!MpPairError::UnexpectedStatus { status: 404 }.is_retryable());
    assert!(!MpPairError::UnexpectedStatus { status: 503 }.is_retryable());
    assert!(
        !MpPairError::Unreached {
            why: MpUnreached::Closed { reason: None }
        }
        .is_retryable()
    );
    assert!(
        MpPairError::Unreached {
            why: MpUnreached::TimedOut { within_ms: 1 }
        }
        .is_retryable()
    );
    assert!(
        MpPairError::Exchange {
            reason: String::new()
        }
        .is_retryable()
    );
    assert!(
        MpPairError::Unknown {
            detail: String::new()
        }
        .is_retryable()
    );
    assert!(
        !MpPairError::Dial {
            reason: String::new(),
            retryable: false
        }
        .is_retryable()
    );
    assert!(
        MpPairError::Dial {
            reason: String::new(),
            retryable: true
        }
        .is_retryable()
    );
}

#[test]
fn an_unexpected_status_crosses_as_a_number_rather_than_as_unknown() {
    for status in [404u16, 503] {
        assert_eq!(
            MpPairError::from_pair_error(PairError::UnexpectedStatus { status }),
            MpPairError::UnexpectedStatus { status },
            "the status crosses as itself, not folded into `Unknown`"
        );
    }

    let old = MpPairError::from_pair_error(PairError::UnexpectedStatus { status: 404 }).message();
    assert!(old.contains("404") && old.contains("too old"), "{old}");
    let other = MpPairError::from_pair_error(PairError::UnexpectedStatus { status: 503 }).message();
    assert!(
        other.contains("503") && !other.contains("too old"),
        "no status but the 404 has been traced to a version: {other}"
    );
    for message in [old, other] {
        assert!(!message.contains("UnexpectedStatus"), "{message}");
    }
}

#[test]
fn the_arms_either_side_of_a_status_still_cross_as_themselves() {
    assert_eq!(
        MpPairError::from_pair_error(PairError::Unexpected("an empty key or device")),
        MpPairError::Unexpected {
            detail: "an empty key or device".to_owned()
        }
    );
    assert_eq!(
        MpPairError::from_pair_error(PairError::Refused),
        MpPairError::Refused,
        "a refused code must not become a retryable `Unknown`"
    );
}

/// The remaining cases of modelpipe's pairing error, each as itself.
#[test]
fn every_pair_error_crosses_as_itself() {
    assert_eq!(
        MpPairError::from_pair_error(PairError::NoCode),
        MpPairError::NoCode
    );
    assert_eq!(
        MpPairError::from_pair_error(PairError::Unreached(Unreached::TimedOut(
            Duration::from_millis(150)
        ))),
        MpPairError::Unreached {
            why: MpUnreached::TimedOut { within_ms: 150 }
        }
    );
    assert_eq!(
        MpPairError::from_pair_error(PairError::Unreached(Unreached::Closed(Some(
            modelpipe::CloseReason::Shutdown
        )))),
        MpPairError::Unreached {
            why: MpUnreached::Closed {
                reason: Some(MpCloseReason::Shutdown)
            }
        }
    );
    assert_eq!(
        MpPairError::from_pair_error(PairError::Exchange(std::io::Error::other(
            "connection reset"
        ))),
        MpPairError::Exchange {
            reason: "connection reset".to_owned()
        }
    );
    let dial = MpPairError::from_pair_error(PairError::Connect(ConnectError::Bind(
        std::io::Error::other("address in use."),
    )));
    assert_eq!(
        dial,
        MpPairError::Dial {
            reason: "This device could not open a local port for the pipe: address in use."
                .to_owned(),
            retryable: false
        }
    );
    let away = MpPairError::from_pair_error(PairError::Connect(ConnectError::PeerUnreachable));
    assert!(away.is_retryable(), "the dial's own answer: {away:?}");
}

/// A wait longer than a `u64` of milliseconds holds reads as the most it
/// can.
#[test]
fn an_enormous_wait_saturates() {
    assert_eq!(
        MpUnreached::from_unreached(Unreached::TimedOut(Duration::MAX)),
        MpUnreached::TimedOut {
            within_ms: u64::MAX
        }
    );
}

/// Sentences word for word, both statuses included.
#[test]
fn the_status_sentences_word_for_word() {
    assert_eq!(
        MpPairError::UnexpectedStatus { status: 404 }.message(),
        "The other machine answered 404: it is too old to pair this way. Update it, then ask it for a new code."
    );
    assert_eq!(
        MpPairError::UnexpectedStatus { status: 503 }.message(),
        "The other machine answered the pairing with status 503, which this app does not understand."
    );
    assert_eq!(
        MpPairError::Exchange {
            reason: " connection reset. ".to_owned()
        }
        .message(),
        "The pairing could not be completed: connection reset."
    );
    assert_eq!(
        MpUnreached::TimedOut { within_ms: 5 }.message(),
        "The other machine did not answer in time. Check it is awake and still sharing."
    );
    assert_eq!(
        MpUnreached::Closed { reason: None }.message(),
        "The connection ended before the other machine answered."
    );
}

/// Only a dial refused over its key file is noted as such.
#[test]
fn only_a_key_refusal_is_noted_as_one() {
    let key = refusal_of(PairError::Connect(ConnectError::Identity {
        path: "/keys/a.key".to_owned(),
        source: std::io::Error::other("not a key"),
    }));
    assert!(key.about_the_key);
    assert!(matches!(
        key.error,
        MpPairError::Dial {
            retryable: false,
            ..
        }
    ));
    assert!(key.error.message().contains("a.key"));

    let other = refusal_of(PairError::Connect(ConnectError::InvalidRelay {
        url: "x".to_owned(),
    }));
    assert!(!other.about_the_key);
    assert!(!refusal_of(PairError::Refused).about_the_key);
}

/// The key file is thrown away once, only for a key refusal, and only when
/// a file was named; a second refusal goes to the caller.
#[test]
fn a_key_is_thrown_away_at_most_once() {
    let mut recovery = KeyRecovery::new();
    assert!(!recovery.should_discard(false, true), "not about the key");
    assert!(!recovery.should_discard(true, false), "no file named");
    assert!(recovery.should_discard(true, true));
    assert!(!recovery.should_dial_again(false), "nothing was thrown away");
    assert!(recovery.should_dial_again(true));
    assert!(!recovery.should_discard(true, true), "the retry is spent");
    assert!(!recovery.should_dial_again(true));
}

/// A paired device renders with its device and the machine it paired
/// with, and nothing else.
#[test]
fn the_debug_of_a_paired_device_never_shows_its_key() {
    let serving = "0".repeat(64);
    let rendered = redacted_paired("dev-test", &serving);
    assert!(!rendered.contains("secret-key-0123"), "{rendered}");
    assert!(rendered.contains("dev-test"), "{rendered}");
    assert!(rendered.contains(&serving), "{rendered}");
    assert_eq!(
        rendered,
        format!("MpPaired {{ device: dev-test, serving: {serving}, .. }}")
    );
}

/// An answer that was not a pairing answer crosses with modelpipe's own
/// words, and a refusal over a key file names the file.
#[test]
fn modelpipes_words_cross_with_the_error() {
    let e = MpPairError::from_pair_error(PairError::Unexpected("no device id"));
    assert_eq!(
        e.message(),
        "The other machine's answer was not a pairing answer (no device id)."
    );
    assert_eq!(
        MpUnreached::from(Unreached::Closed(None)),
        MpUnreached::Closed { reason: None }
    );
}
