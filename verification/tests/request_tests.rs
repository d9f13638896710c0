use openai_orch::chat::ChatModelParams;
use openai_orch::chat::siso::ChatSisoRequest;
use openai_orch::chat::siso::ChatSisoResponse;
use openai_orch::chat::siso::StopSelection;
use openai_orch::chat::siso::select_stop;
use openai_orch::driver::AttemptOutcome;
use openai_orch::driver::DriverStep;
use openai_orch::driver::drive_attempt;
use openai_orch::embed::EMBEDDING_SIZE;
use openai_orch::embed::EmbeddingRequest;
use openai_orch::embed::validate_embedding;
use openai_orch::erased::ErasedValue;
use openai_orch::erased::KIND_A;
use openai_orch::erased::KIND_B;
use openai_orch::erased::KIND_CHAT_SISO;
use openai_orch::erased::KIND_EMBEDDING;
use openai_orch::errors::FailureKind;
use openai_orch::errors::OrchError;
use openai_orch::io::ResponseA;
use openai_orch::io::ResponseB;
use openai_orch::keys::Keys;
use openai_orch::policies::RetryPolicy;

#[test]
fn chat_model_params_default_values() {
    let params = ChatModelParams::default();
    assert_eq!(params.model, "gpt-3.5-turbo");
    assert!(params.stop.is_empty());
    assert_eq!(params.max_tokens, 256);
}

#[test]
fn chat_request_bundles_its_prompts() {
    let request = ChatSisoRequest::new(
        "You are a helpful assistant.".to_string(),
        "What are you?".to_string(),
        ChatModelParams::default(),
    );
    assert_eq!(request.system_prompt, "You are a helpful assistant.");
    assert_eq!(request.user_prompt, "What are you?");
    assert_eq!(request.model_params.max_tokens, 256);
}

#[test]
fn chat_timeout_estimate_for_default_budget() {
    let request = ChatSisoRequest::new(String::new(), String::new(), ChatModelParams::default());
    assert_eq!(request.estimate_timeout_ms(), 5000);
}

#[test]
fn chat_timeout_estimate_counts_prompt_characters() {
    let request = ChatSisoRequest::new(
        "12345678".to_string(),
        "abcdefgh".to_string(),
        ChatModelParams::default(),
    );
    assert_eq!(request.estimate_timeout_ms(), 5078);
}

#[test]
fn chat_response_exposes_its_text() {
    let response = ChatSisoResponse::new("hello".to_string());
    assert_eq!(response.text().as_str(), "hello");
    let text: String = String::from(response);
    assert_eq!(text, "hello");
}

#[test]
fn stop_selection_by_number_of_sequences() {
    assert!(matches!(select_stop(Vec::new()), StopSelection::Unspecified));
    match select_stop(vec!["end".to_string()]) {
        StopSelection::Single(s) => assert_eq!(s, "end"),
        other => panic!("expected a single stop sequence, got {:?}", other),
    }
    match select_stop(vec!["a".to_string(), "b".to_string()]) {
        StopSelection::Multiple(v) => assert_eq!(v, vec!["a".to_string(), "b".to_string()]),
        other => panic!("expected the whole list, got {:?}", other),
    }
}

#[test]
fn driver_finishes_on_a_delivered_payload() {
    let mut policy = RetryPolicy::immediate(2);
    match drive_attempt(&mut policy, AttemptOutcome::Delivered(Some("done".to_string()))) {
        DriverStep::Finish(payload) => assert_eq!(payload, "done"),
        other => panic!("expected to finish, got {:?}", other),
    }
    assert_eq!(policy, RetryPolicy::immediate(2));
}

#[test]
fn driver_missing_content_is_permanent_and_not_retried() {
    let mut policy = RetryPolicy::immediate(2);
    match drive_attempt::<String>(&mut policy, AttemptOutcome::Delivered(None)) {
        DriverStep::Fail(e) => assert_eq!(e, OrchError::MissingContent),
        other => panic!("expected a permanent failure, got {:?}", other),
    }
    assert_eq!(policy, RetryPolicy::immediate(2));
}

#[test]
fn driver_timeout_consumes_one_retry() {
    let mut policy = RetryPolicy::constant_delay(1, 250);
    match drive_attempt::<String>(&mut policy, AttemptOutcome::TimedOut) {
        DriverStep::Backoff { delay_ms } => assert_eq!(delay_ms, 250),
        other => panic!("expected a backoff, got {:?}", other),
    }
    match drive_attempt::<String>(&mut policy, AttemptOutcome::TimedOut) {
        DriverStep::Fail(e) => assert_eq!(e, OrchError::RetriesExhausted(FailureKind::TimedOut)),
        other => panic!("expected exhaustion, got {:?}", other),
    }
}

#[test]
fn driver_always_failing_executable_makes_six_attempts() {
    let mut policy = RetryPolicy::exponential_backoff(5, 0, 0);
    let mut attempts = 0u32;
    loop {
        attempts += 1;
        match drive_attempt::<String>(&mut policy, AttemptOutcome::RemoteError) {
            DriverStep::Backoff { .. } => continue,
            DriverStep::Fail(e) => {
                assert_eq!(e, OrchError::RetriesExhausted(FailureKind::Remote));
                break;
            },
            DriverStep::Finish(_) => unreachable!(),
        }
    }
    assert_eq!(attempts, 6);
}

#[test]
fn driver_remote_error_exhaustion_names_its_cause() {
    let mut policy = RetryPolicy::immediate(0);
    match drive_attempt::<String>(&mut policy, AttemptOutcome::RemoteError) {
        DriverStep::Fail(e) => assert_eq!(e, OrchError::RetriesExhausted(FailureKind::Remote)),
        other => panic!("expected exhaustion, got {:?}", other),
    }
}

#[test]
fn erased_values_carry_their_kind_tags() {
    assert_eq!(ErasedValue::ChatSiso(ChatSisoResponse::new("x".to_string())).kind(), KIND_CHAT_SISO);
    assert_eq!(ErasedValue::Embedding(vec![0u32; 4]).kind(), KIND_EMBEDDING);
    assert_eq!(ErasedValue::A(ResponseA).kind(), KIND_A);
    assert_eq!(ErasedValue::B(ResponseB).kind(), KIND_B);
    let tags = [KIND_CHAT_SISO, KIND_EMBEDDING, KIND_A, KIND_B];
    for i in 0..tags.len() {
        for j in 0..tags.len() {
            if i != j {
                assert_ne!(tags[i], tags[j]);
            }
        }
    }
}

#[test]
fn embedding_validation_accepts_exactly_the_full_shape() {
    let bits = vec![7u32; EMBEDDING_SIZE];
    assert_eq!(validate_embedding(bits.clone()), Ok(bits));
}

#[test]
fn embedding_validation_rejects_short_vectors_as_missing_content() {
    assert_eq!(validate_embedding(vec![7u32; 3]), Err(OrchError::MissingContent));
    assert_eq!(
        validate_embedding(vec![7u32; EMBEDDING_SIZE + 1]),
        Err(OrchError::MissingContent)
    );
    assert_eq!(validate_embedding(Vec::new()), Err(OrchError::MissingContent));
}

#[test]
fn embedding_request_holds_its_input() {
    let request = EmbeddingRequest("some text".to_string());
    assert_eq!(request.0, "some text");
    assert_eq!(EMBEDDING_SIZE, 1536);
}

#[test]
fn keys_hold_the_credentials_they_were_given() {
    let keys = Keys::new("SECRET-REDACTED".to_string(), Some("org-1".to_string()));
    assert_eq!(keys.openai_api_key, "SECRET-REDACTED");
    assert_eq!(keys.openai_org_id.as_deref(), Some("org-1"));
    let bare = Keys::new("SECRET-REDACTED".to_string(), None);
    assert!(bare.openai_org_id.is_none());
}

#[test]
fn error_messages_name_their_condition() {
    assert_eq!(OrchError::NotFound.message(), "no response receiver found");
    assert_eq!(OrchError::ChannelClosed.message(), "no response found");
    assert_eq!(OrchError::TypeMismatch.message(), "response kind does not match the request");
    assert_eq!(
        OrchError::RetriesExhausted(FailureKind::TimedOut).message(),
        "reached max retry"
    );
    assert_eq!(OrchError::MissingContent.message(), "response is missing required content");
    assert_eq!(OrchError::IdCollision.message(), "could not allocate a fresh request id");
}
