use solana_service::address::TransactionId;
use solana_service::error::AppError;
use solana_service::submitter::{
    Action, Blockhash, Event, Observation, Submitter, CONFIRMATION_POLLS,
};

fn sent() -> TransactionId {
    TransactionId { bytes: [9u8; 64] }
}

fn broadcast(polls: u32) -> (Submitter, Action) {
    let (state, first) = Submitter::begin(polls);
    assert!(matches!(first, Action::FetchBlockhash));
    let (state, second) = state.step(Event::Blockhash(Blockhash { bytes: [4u8; 32] }));
    match second {
        Action::SignAndSend { blockhash } => assert_eq!(blockhash.bytes, [4u8; 32]),
        other => panic!("expected to sign and send, got {:?}", other),
    }
    state.step(Event::Sent(sent()))
}

fn transport_detail(action: Action) -> String {
    match action {
        Action::Finish(Err(AppError::Solana(detail))) => detail,
        other => panic!("expected a transport failure, got {:?}", other),
    }
}

fn internal_detail(action: Action) -> String {
    match action {
        Action::Finish(Err(AppError::Internal(detail))) => detail,
        other => panic!("expected an internal failure, got {:?}", other),
    }
}

#[test]
fn default_number_of_polls_is_one_hundred_and_twenty() {
    assert_eq!(CONFIRMATION_POLLS, 120);
}

#[test]
fn submission_fetches_signs_polls_and_finishes() {
    let (state, action) = broadcast(5);
    match action {
        Action::Poll { signature } => assert_eq!(signature.bytes, [9u8; 64]),
        other => panic!("expected a poll, got {:?}", other),
    }
    let (state, action) = state.step(Event::Polled(Observation::Pending));
    assert!(matches!(action, Action::Poll { .. }));
    let (state, action) =
        state.step(Event::Polled(Observation::Confirmed { slot: Some(321) }));
    assert!(matches!(state, Submitter::Finished));
    match action {
        Action::Finish(Ok(receipt)) => {
            assert_eq!(receipt.signature.bytes, [9u8; 64]);
            assert_eq!(receipt.slot, Some(321));
        }
        other => panic!("expected a receipt, got {:?}", other),
    }
}

#[test]
fn confirmation_without_a_block_height_is_taken() {
    let (state, _) = broadcast(1);
    let (_, action) = state.step(Event::Polled(Observation::Confirmed { slot: None }));
    match action {
        Action::Finish(Ok(receipt)) => assert_eq!(receipt.slot, None),
        other => panic!("expected a receipt, got {:?}", other),
    }
}

#[test]
fn failed_blockhash_fetch_ends_the_submission() {
    let (state, _) = Submitter::begin(5);
    let (state, action) = state.step(Event::Failure("node unreachable".to_string()));
    assert!(matches!(state, Submitter::Finished));
    assert_eq!(transport_detail(action), "node unreachable");
}

#[test]
fn failed_send_ends_the_submission_without_another_send() {
    let (state, _) = Submitter::begin(5);
    let (state, _) = state.step(Event::Blockhash(Blockhash { bytes: [4u8; 32] }));
    let (state, action) = state.step(Event::Failure("insufficient funds".to_string()));
    assert!(matches!(state, Submitter::Finished));
    assert_eq!(transport_detail(action), "insufficient funds");
    let (state, action) = state.step(Event::Blockhash(Blockhash { bytes: [5u8; 32] }));
    assert!(matches!(state, Submitter::Finished));
    assert_eq!(internal_detail(action), "Unexpected event");
}

#[test]
fn transaction_that_failed_on_chain_is_a_transport_failure() {
    let (state, _) = broadcast(5);
    let (state, action) =
        state.step(Event::Polled(Observation::Failed("custom program error".to_string())));
    assert!(matches!(state, Submitter::Finished));
    assert_eq!(transport_detail(action), "custom program error");
}

#[test]
fn failed_poll_ends_the_submission() {
    let (state, _) = broadcast(5);
    let (state, action) = state.step(Event::Failure("timeout reading".to_string()));
    assert!(matches!(state, Submitter::Finished));
    assert_eq!(transport_detail(action), "timeout reading");
}

#[test]
fn wait_times_out_after_the_allowed_polls() {
    let (mut state, mut action) = broadcast(3);
    let mut polls = 0;
    while let Action::Poll { .. } = action {
        polls += 1;
        assert!(polls <= 3);
        let next = state.step(Event::Polled(Observation::Pending));
        state = next.0;
        action = next.1;
    }
    assert_eq!(polls, 3);
    assert!(matches!(state, Submitter::Finished));
    assert_eq!(transport_detail(action), "Confirmation timed out");
}

#[test]
fn wait_that_allows_no_poll_times_out_at_once() {
    let (state, action) = broadcast(0);
    assert!(matches!(state, Submitter::Finished));
    assert_eq!(transport_detail(action), "Confirmation timed out");
}

#[test]
fn event_that_answers_nothing_asked_is_an_internal_failure() {
    let (state, _) = Submitter::begin(5);
    let (state, action) = state.step(Event::Sent(sent()));
    assert!(matches!(state, Submitter::Finished));
    assert_eq!(internal_detail(action), "Unexpected event");

    let (state, _) = broadcast(5);
    let (state, action) = state.step(Event::Blockhash(Blockhash { bytes: [1u8; 32] }));
    assert!(matches!(state, Submitter::Finished));
    assert_eq!(internal_detail(action), "Unexpected event");

    let (_, action) = state.step(Event::Failure("late".to_string()));
    assert_eq!(internal_detail(action), "Unexpected event");
}
