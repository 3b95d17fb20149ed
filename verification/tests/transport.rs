use stress::transport::is_incomplete;
use stress::transport::Outcome;
use stress::transport::TransportError;

fn failure(message: &str) -> TransportError {
    TransportError::new(message.to_string())
}

#[test]
fn the_error_keeps_its_message() {
    assert_eq!(failure("connection reset").message(), "connection reset");
}

#[test]
fn the_truncated_response_is_incomplete() {
    assert!(is_incomplete(&failure("parsed HTTP message from remote is incomplete")));
}

#[test]
fn only_the_exact_message_is_incomplete() {
    assert!(!is_incomplete(&failure("")));
    assert!(!is_incomplete(&failure("parsed HTTP message from remote is incomplete ")));
    assert!(!is_incomplete(&failure(" parsed HTTP message from remote is incomplete")));
    assert!(!is_incomplete(&failure("Parsed HTTP message from remote is incomplete")));
    assert!(!is_incomplete(&failure("parsed HTTP message from remote is incomplete: eof")));
    assert!(!is_incomplete(&failure("parsed HTTP message from remote is incomplet")));
    assert!(!is_incomplete(&failure("connection closed before message completed")));
    assert!(!is_incomplete(&failure("an error occurred trying to connect: refused")));
}

#[test]
fn a_response_is_a_completion() {
    assert!(Outcome::Success.is_completion());
}

#[test]
fn the_tolerated_failure_is_a_completion() {
    let outcome = Outcome::Failure(failure("parsed HTTP message from remote is incomplete"));
    assert!(outcome.is_completion());
}

#[test]
fn any_other_failure_is_no_completion() {
    assert!(!Outcome::Failure(failure("connection reset by peer")).is_completion());
    assert!(!Outcome::Failure(failure("")).is_completion());
}
