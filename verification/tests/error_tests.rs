//! Errors say something a person can act on, and never say the ticket.

use modelpipe::{ConnectError, TicketParseError};
use modelpipe_ffi::{parse_ticket, trimmed, ConnectFault, MpError, TicketFault};

/// modelpipe's normative ticket vector 1.
const GOOD_TICKET: &str = "pipeadlvvgabqkyqvn6vjp7nhslea45a5yls6pnkmizfv4bbu2hxa5iruaaauhlp2na";

fn sentence(text: &str) -> bool {
    !text.is_empty()
        && (text.ends_with('.') || text.ends_with(')'))
        && text.chars().next().is_some_and(char::is_uppercase)
}

#[test]
fn no_error_renders_the_ticket() {
    let errors = [
        MpError::from_ticket_error(TicketParseError::Malformed),
        MpError::from_ticket_error(TicketParseError::UnsupportedVersion(9)),
        MpError::BadTicket {
            reason: "unreadable".to_owned(),
        },
        MpError::Bind {
            reason: "address in use".to_owned(),
        },
        MpError::Endpoint {
            reason: "no route".to_owned(),
        },
        MpError::InvalidRelay {
            url: "not a url".to_owned(),
        },
        MpError::PeerUnreachable,
        MpError::Unknown {
            detail: "NewVariant".to_owned(),
        },
    ];

    for error in &errors {
        let rendered = format!("{} {error:?}", error.message());
        assert!(
            !rendered.contains(GOOD_TICKET),
            "an error rendered a ticket: {rendered}"
        );
        assert!(
            !rendered.contains("pipead"),
            "an error rendered a ticket prefix: {rendered}"
        );
    }
}

#[test]
fn every_error_is_a_sentence() {
    let errors = [
        MpError::from_ticket_error(TicketParseError::Malformed),
        MpError::from_ticket_error(TicketParseError::UnsupportedVersion(9)),
        MpError::Bind {
            reason: "address in use".to_owned(),
        },
        MpError::Endpoint {
            reason: "no route".to_owned(),
        },
        MpError::InvalidRelay {
            url: "nope".to_owned(),
        },
        MpError::PeerUnreachable,
        MpError::Unknown {
            detail: "NewVariant".to_owned(),
        },
    ];

    for error in &errors {
        let rendered = error.message();
        assert!(!rendered.is_empty(), "{error:?} rendered nothing");
        assert!(
            rendered.ends_with('.') || rendered.ends_with(')'),
            "{error:?} is a fragment rather than a sentence: {rendered}"
        );
        assert!(
            rendered.chars().next().is_some_and(char::is_uppercase),
            "{error:?} does not start a sentence: {rendered}"
        );
    }
}

#[test]
fn error_tests_only_the_failures_that_could_pass_next_time_are_retryable() {
    assert!(
        !MpError::BadTicket {
            reason: String::new()
        }
        .is_retryable(),
        "a bad ticket is bad however many times it is pasted"
    );
    assert!(!MpError::UnsupportedTicketVersion { version: 9 }.is_retryable());
    assert!(
        !MpError::Bind {
            reason: String::new()
        }
        .is_retryable(),
        "another process holds the port; dialling again finds it held"
    );
    assert!(
        !MpError::InvalidRelay { url: String::new() }.is_retryable(),
        "a malformed URL does not become well-formed"
    );

    assert!(
        MpError::PeerUnreachable.is_retryable(),
        "a machine that was asleep may not be next time"
    );
    assert!(
        MpError::Endpoint {
            reason: String::new()
        }
        .is_retryable()
    );
    assert!(
        MpError::Unknown {
            detail: String::new()
        }
        .is_retryable(),
        "an unknown transport failure is more often transient than permanent"
    );
}

#[test]
fn a_bad_ticket_and_an_absent_machine_do_not_read_alike() {
    let bad = MpError::from_ticket_error(TicketParseError::Malformed).message();
    let away = MpError::PeerUnreachable.message();

    assert!(
        bad.contains("pairing string"),
        "the bad-ticket sentence names what to re-copy: {bad}"
    );
    assert!(
        away.contains("other machine"),
        "the unreachable sentence names the far side: {away}"
    );
    assert_ne!(bad, away);
}

#[test]
fn an_unsupported_version_says_which_version() {
    let error = MpError::from_ticket_error(TicketParseError::UnsupportedVersion(7));
    assert_eq!(error, MpError::UnsupportedTicketVersion { version: 7 });
    assert!(error.message().contains('7'), "{}", error.message());
}

#[test]
fn an_os_reason_gets_exactly_one_full_stop() {
    for reason in [
        "address in use",
        "address in use.",
        "address in use.  ",
        "  address in use  ",
        "address in use. .",
        " address in use . . ",
    ] {
        let rendered = MpError::Bind {
            reason: reason.to_owned(),
        }
        .message();

        assert!(
            rendered.ends_with("address in use."),
            "{reason:?} rendered as {rendered:?}"
        );
        assert!(
            !rendered.ends_with(".."),
            "{reason:?} doubled the full stop: {rendered:?}"
        );
    }
}

/// Every case's sentence, word for word.
#[test]
fn every_sentence_word_for_word() {
    assert_eq!(
        MpError::from_ticket_error(TicketParseError::Malformed).message(),
        "That does not look like a pairing string. Copy the whole thing, including the `pipe` at the front."
    );
    assert_eq!(
        MpError::UnsupportedTicketVersion { version: 255 }.message(),
        "This pairing string is version 255, which this app is too old to read. Update the app."
    );
    assert_eq!(
        MpError::UnsupportedTicketVersion { version: 0 }.message(),
        "This pairing string is version 0, which this app is too old to read. Update the app."
    );
    assert_eq!(
        MpError::Endpoint {
            reason: " no route to host.\n".to_owned()
        }
        .message(),
        "This device could not start the connection: no route to host."
    );
    assert_eq!(
        MpError::InvalidRelay {
            url: "ftp://x".to_owned()
        }
        .message(),
        "The relay address ftp://x is not a valid URL."
    );
    assert_eq!(
        MpError::Identity {
            path: "/keys/0382e9033d890983.key".to_owned(),
            reason: "No such file or directory (os error 2)".to_owned()
        }
        .message(),
        "This device could not keep its key in /keys/0382e9033d890983.key: No such file or directory (os error 2)."
    );
    assert_eq!(
        MpError::Unknown {
            detail: "Strange".to_owned()
        }
        .message(),
        "The connection failed for a reason this app does not recognise (Strange)."
    );
    assert_eq!(
        MpError::BadTicket {
            reason: "As given.".to_owned()
        }
        .message(),
        "As given."
    );
}

/// An unusable key file names the file, and trying again does not help.
#[test]
fn an_unusable_key_is_permanent_and_named() {
    let error = MpError::Identity {
        path: "/keys/0382e9033d890983.key".to_owned(),
        reason: "Permission denied".to_owned(),
    };
    assert!(!error.is_retryable());
    assert!(error.message().contains("0382e9033d890983.key"));
    assert!(error.is_key_refusal());
    assert!(!MpError::PeerUnreachable.is_key_refusal());
}

/// Each modelpipe refusal of a dial crosses as its own case, with the
/// operating system's reason rather than modelpipe's sentence.
#[test]
fn every_connect_error_crosses_as_itself() {
    let bind = MpError::from_connect_error(ConnectError::Bind(std::io::Error::other(
        "address in use",
    )));
    assert_eq!(
        bind,
        MpError::Bind {
            reason: "address in use".to_owned()
        }
    );
    let endpoint = MpError::from_connect_error(ConnectError::Endpoint(std::io::Error::other(
        "no route",
    )));
    assert_eq!(
        endpoint,
        MpError::Endpoint {
            reason: "no route".to_owned()
        }
    );
    assert_eq!(
        MpError::from_connect_error(ConnectError::PeerUnreachable),
        MpError::PeerUnreachable
    );
    assert_eq!(
        MpError::from_connect_error(ConnectError::InvalidRelay {
            url: "nope".to_owned()
        }),
        MpError::InvalidRelay {
            url: "nope".to_owned()
        }
    );
    let identity = MpError::from_connect_error(ConnectError::Identity {
        path: "/k/a.key".to_owned(),
        source: std::io::Error::other("not a key"),
    });
    assert_eq!(
        identity,
        MpError::Identity {
            path: "/k/a.key".to_owned(),
            reason: "not a key".to_owned()
        }
    );
    assert_eq!(
        MpError::from_connect_fault(ConnectFault::Unrecognised {
            detail: "X".to_owned()
        }),
        MpError::Unknown {
            detail: "X".to_owned()
        }
    );
}

/// A refusal this build has no words for says so in a sentence.
#[test]
fn an_unrecognised_ticket_refusal_is_still_a_sentence() {
    let error = MpError::from_ticket_fault(TicketFault::Unrecognised("Other".to_owned()));
    assert_eq!(
        error.message(),
        "That pairing string could not be read (Other)."
    );
    assert!(sentence(&error.message()));
    assert!(!error.is_retryable());
}

/// A ticket that is not one is refused by modelpipe's parser, and a good
/// one is read.
#[test]
fn a_ticket_is_read_with_modelpipes_parser() {
    assert!(parse_ticket(GOOD_TICKET).is_ok());
    assert!(matches!(
        parse_ticket("nope"),
        Err(MpError::BadTicket { .. })
    ));
    assert!(matches!(parse_ticket(""), Err(MpError::BadTicket { .. })));
    let mut corrupted = GOOD_TICKET.to_owned();
    corrupted.replace_range(10..11, if &GOOD_TICKET[10..11] == "a" { "b" } else { "a" });
    assert!(parse_ticket(&corrupted).is_err());
}

/// Trimming follows Unicode's white space, and strips the reason's own full
/// stops and the space they uncover.
#[test]
fn a_reason_is_trimmed_as_the_sentence_needs() {
    assert_eq!(trimmed("  in use.  "), "in use");
    assert_eq!(trimmed("in use..."), "in use");
    assert_eq!(trimmed("\u{3000}in use\u{a0}"), "in use");
    assert_eq!(trimmed("..."), "");
    assert_eq!(trimmed(""), "");
    assert_eq!(trimmed("in . use"), "in . use");
    assert_eq!(trimmed("in use . ."), "in use");
    assert_eq!(trimmed("in use. .\t"), "in use");
}
