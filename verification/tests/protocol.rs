use bfx::client::{parse_error, Client};
use bfx::error::{classify_error, BitfinexError};
use bfx::transport::{
    evaluate_attempt, run_with_outcomes, AttemptOutcome, RetryDriver, RetryStep, DEFAULT_ATTEMPTS,
    RETRY_INTERVAL_SECS,
};

#[test]
fn nonce_small_envelope_is_classified_and_retryable() {
    let body = "\"error\",10114,\"nonce: small\"";
    let (code, message) = parse_error(body).expect("envelope must be found");
    assert_eq!(code, "10114");
    assert_eq!(message, "nonce: small");
    let e = classify_error(&code, message);
    assert_eq!(e, BitfinexError::NonceSmall);
    assert!(e.is_retryable());
    let step = evaluate_attempt(AttemptOutcome::Body(body.to_string()));
    assert!(matches!(step, RetryStep::Retry));
}

#[test]
fn offer_limit_envelope_is_classified() {
    let body = "\"error\",10001,\"Limit: too many active offers\"";
    let (code, message) = parse_error(body).expect("envelope must be found");
    assert_eq!(code, "10001");
    let e = classify_error(&code, message);
    assert_eq!(e, BitfinexError::ExceedMaxOfferCount);
    assert!(!e.is_retryable());
}

#[test]
fn classifier_routing_table() {
    assert_eq!(classify_error("10020", "currency: invalid".into()), BitfinexError::InvalidCurrency);
    assert_eq!(
        classify_error("10100", "apikey: digest invalid".into()),
        BitfinexError::InvalidKeyDigest
    );
    assert_eq!(classify_error("11000", "ready: invalid".into()), BitfinexError::BitfinexTempUnavailable);
    assert_eq!(classify_error("11010", "ratelimit: error".into()), BitfinexError::RateLimited);
    assert_eq!(
        classify_error("10001", "FRR offset larger than 30% of FRR".into()),
        BitfinexError::BitfinexGenericError("FRR offset larger than 30% of FRR".into())
    );
    assert_eq!(
        classify_error("99999", "something new".into()),
        BitfinexError::BitfinexGenericError("something new".into())
    );
}

#[test]
fn error_envelope_is_found_inside_a_larger_body() {
    let body = "[\"error\",10020,\"currency: invalid\"]";
    let (code, message) = parse_error(body).expect("envelope must be found");
    assert_eq!(code, "10020");
    // The scan keeps what follows the message's closing quote; only quotes
    // and spaces are stripped from the ends.
    assert_eq!(message, "currency: invalid\"]");
}

#[test]
fn error_message_stops_at_the_next_comma() {
    let body = "\"error\",10001,\"Invalid offer: incorrect amount, minimum is 150.0\"";
    let (code, message) = parse_error(body).expect("envelope must be found");
    assert_eq!(code, "10001");
    assert_eq!(message, "Invalid offer: incorrect amount");
}

#[test]
fn bodies_without_an_envelope_carry_no_error() {
    assert!(parse_error("[[\"exchange\",\"USD\",100.5]]").is_none());
    assert!(parse_error("").is_none());
    assert!(parse_error("\"error\",10114").is_none());
    let c = Client::new(String::new(), String::new());
    assert_eq!(c.handle_error(&"[1,2,3]".to_string()), Ok(()));
}

#[test]
fn handle_error_surfaces_the_classified_reason() {
    let c = Client::new(String::new(), String::new());
    let body = "\"error\",10001,\"Limit: too many active offers\"".to_string();
    assert_eq!(c.handle_error(&body), Err(BitfinexError::ExceedMaxOfferCount));
    let body = "\"error\",11010,\"ratelimit: error\"".to_string();
    assert_eq!(c.handle_error(&body), Err(BitfinexError::RateLimited));
}

#[test]
fn retry_exhaustion_makes_exactly_the_configured_attempts() {
    let mut outcomes = Vec::new();
    for _ in 0..6 {
        outcomes.push(AttemptOutcome::TransportFailed);
    }
    let (result, used) = run_with_outcomes(outcomes, DEFAULT_ATTEMPTS);
    assert_eq!(result, Err(BitfinexError::RetryExhausted));
    assert_eq!(used, 6);
}

#[test]
fn retry_driver_exhausts_after_the_configured_attempts() {
    let mut driver = RetryDriver::new(DEFAULT_ATTEMPTS);
    let mut attempts = 0;
    let result = loop {
        assert!(driver.can_attempt(), "the loop must never run out of attempts silently");
        attempts += 1;
        match driver.on_outcome(AttemptOutcome::TransportFailed) {
            Some(r) => break r,
            None => continue,
        }
    };
    assert_eq!(attempts, 6);
    assert_eq!(result, Err(BitfinexError::RetryExhausted));
    assert_eq!(RETRY_INTERVAL_SECS, 1);
}

#[test]
fn a_clean_body_ends_the_loop_at_once() {
    let outcomes = vec![AttemptOutcome::Body("[1]".to_string())];
    let (result, used) = run_with_outcomes(outcomes, 1);
    assert_eq!(result, Ok("[1]".to_string()));
    assert_eq!(used, 1);
}

#[test]
fn a_transport_failure_is_retried_then_the_body_returned() {
    let outcomes = vec![
        AttemptOutcome::TransportFailed,
        AttemptOutcome::Body("[42]".to_string()),
        AttemptOutcome::TransportFailed,
        AttemptOutcome::TransportFailed,
        AttemptOutcome::TransportFailed,
        AttemptOutcome::TransportFailed,
    ];
    let (result, used) = run_with_outcomes(outcomes, DEFAULT_ATTEMPTS);
    assert_eq!(result, Ok("[42]".to_string()));
    assert_eq!(used, 2);
}

#[test]
fn a_nonce_small_body_is_retried_with_a_fresh_request() {
    let outcomes = vec![
        AttemptOutcome::Body("\"error\",10114,\"nonce: small\"".to_string()),
        AttemptOutcome::Body("[\"ok\"]".to_string()),
        AttemptOutcome::TransportFailed,
        AttemptOutcome::TransportFailed,
        AttemptOutcome::TransportFailed,
        AttemptOutcome::TransportFailed,
    ];
    let (result, used) = run_with_outcomes(outcomes, DEFAULT_ATTEMPTS);
    assert_eq!(result, Ok("[\"ok\"]".to_string()));
    assert_eq!(used, 2);
}

#[test]
fn a_terminal_envelope_stops_the_loop_at_once() {
    let outcomes = vec![
        AttemptOutcome::Body("\"error\",10020,\"currency: invalid\"".to_string()),
        AttemptOutcome::Body("[\"never reached\"]".to_string()),
    ];
    let (result, used) = run_with_outcomes(outcomes, 2);
    assert_eq!(result, Err(BitfinexError::InvalidCurrency));
    assert_eq!(used, 1);
}

#[test]
fn evaluate_attempt_hands_back_clean_bodies() {
    match evaluate_attempt(AttemptOutcome::Body("[7]".to_string())) {
        RetryStep::Done(b) => assert_eq!(b, "[7]"),
        _ => panic!("a clean body must be the success payload"),
    }
    assert!(matches!(evaluate_attempt(AttemptOutcome::TransportFailed), RetryStep::Retry));
}
