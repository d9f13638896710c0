use openai_orch::Orchestrator;
use openai_orch::RequestID;
use openai_orch::erased::ErasedValue;
use openai_orch::erased::KIND_A;
use openai_orch::erased::KIND_B;
use openai_orch::errors::OrchError;
use openai_orch::io::RequestA;
use openai_orch::io::ResponseA;
use openai_orch::io::ResponseB;
use openai_orch::keys::Keys;
use openai_orch::policies::ConcurrencyPolicy;
use openai_orch::policies::Policies;
use openai_orch::registry::Registry;
use openai_orch::registry::Retrieval;

fn keys() -> Keys {
    Keys::new("SECRET-REDACTED".to_string(), None)
}

fn orchestrator_with_concurrency(limit: usize) -> Orchestrator {
    let mut policies = Policies::default();
    policies.concurrency_policy = ConcurrencyPolicy::new(limit);
    Orchestrator::new(policies, keys())
}

#[test]
fn exactly_once_retrieval_second_get_is_not_found() {
    let mut orch = orchestrator_with_concurrency(2);
    let rid = orch.submit(KIND_A).unwrap();
    assert!(orch.begin_task());
    assert!(orch.complete_task(rid.id, Ok(ErasedValue::A(ResponseA))));
    match orch.get_response(rid) {
        Retrieval::Done(Ok(ErasedValue::A(_))) => {},
        other => panic!("expected the delivered response, got {:?}", other),
    }
    match orch.get_response(rid) {
        Retrieval::Done(Err(e)) => assert_eq!(e, OrchError::NotFound),
        other => panic!("expected NotFound, got {:?}", other),
    }
}

#[test]
fn unknown_identifier_is_not_found() {
    let mut orch = orchestrator_with_concurrency(2);
    let rid = RequestID { id: 42, kind: KIND_A };
    match orch.get_response(rid) {
        Retrieval::Done(Err(e)) => assert_eq!(e, OrchError::NotFound),
        other => panic!("expected NotFound, got {:?}", other),
    }
}

#[test]
fn pending_entry_is_not_ready_and_stays() {
    let mut orch = orchestrator_with_concurrency(2);
    let rid = orch.submit(KIND_A).unwrap();
    assert!(matches!(orch.get_response(rid), Retrieval::NotReady));
    assert!(matches!(orch.get_response(rid), Retrieval::NotReady));
}

#[test]
fn type_mismatch_at_retrieval_is_an_explicit_error() {
    let mut orch = orchestrator_with_concurrency(2);
    let rid = orch.submit(KIND_A).unwrap();
    assert!(orch.begin_task());
    assert!(orch.complete_task(rid.id, Ok(ErasedValue::A(ResponseA))));
    let wrong = RequestID { id: rid.id, kind: KIND_B };
    match orch.get_response(wrong) {
        Retrieval::Done(Err(e)) => assert_eq!(e, OrchError::TypeMismatch),
        other => panic!("expected TypeMismatch, got {:?}", other),
    }
    match orch.get_response(rid) {
        Retrieval::Done(Ok(ErasedValue::A(_))) => {},
        other => panic!("expected the response under the right kind, got {:?}", other),
    }
}

#[test]
fn mismatched_completion_value_kind_is_never_misinterpreted() {
    let mut orch = orchestrator_with_concurrency(2);
    let rid = orch.submit(KIND_A).unwrap();
    assert!(orch.begin_task());
    assert!(orch.complete_task(rid.id, Ok(ErasedValue::B(ResponseB))));
    match orch.get_response(rid) {
        Retrieval::Done(Ok(value)) => assert_eq!(value.kind(), KIND_B),
        other => panic!("expected the stored value, got {:?}", other),
    }
}

#[test]
fn abandoned_task_reports_channel_closed() {
    let mut orch = orchestrator_with_concurrency(2);
    let rid = orch.submit(KIND_A).unwrap();
    assert!(orch.begin_task());
    assert!(orch.abandon_task(rid.id));
    match orch.get_response(rid) {
        Retrieval::Done(Err(e)) => assert_eq!(e, OrchError::ChannelClosed),
        other => panic!("expected ChannelClosed, got {:?}", other),
    }
    match orch.get_response(rid) {
        Retrieval::Done(Err(e)) => assert_eq!(e, OrchError::NotFound),
        other => panic!("expected NotFound after consumption, got {:?}", other),
    }
}

#[test]
fn admission_bound_with_three_permits() {
    let mut orch = orchestrator_with_concurrency(3);
    let a = orch.submit(KIND_A).unwrap();
    let b = orch.submit(KIND_A).unwrap();
    let c = orch.submit(KIND_A).unwrap();
    let d = orch.submit(KIND_A).unwrap();
    assert!(orch.begin_task());
    assert!(orch.begin_task());
    assert!(orch.begin_task());
    assert_eq!(orch.in_flight_count(), 3);
    assert!(!orch.begin_task());
    assert_eq!(orch.in_flight_count(), 3);
    assert!(orch.complete_task(a.id, Ok(ErasedValue::A(ResponseA))));
    assert_eq!(orch.in_flight_count(), 2);
    assert!(orch.begin_task());
    assert_eq!(orch.in_flight_count(), 3);
    assert!(orch.complete_task(b.id, Ok(ErasedValue::A(ResponseA))));
    assert!(orch.complete_task(c.id, Ok(ErasedValue::A(ResponseA))));
    assert!(orch.complete_task(d.id, Ok(ErasedValue::A(ResponseA))));
    assert_eq!(orch.in_flight_count(), 0);
}

#[test]
fn fan_out_hundred_requests_with_concurrency_twenty_five() {
    let mut orch = orchestrator_with_concurrency(25);
    let mut ids = Vec::new();
    for _ in 0..100 {
        ids.push(orch.submit(KIND_A).unwrap());
    }
    let mut next = 0usize;
    let mut running: Vec<RequestID> = Vec::new();
    let mut completed = 0usize;
    let mut max_in_flight = 0usize;
    while completed < 100 {
        while next < ids.len() && orch.begin_task() {
            running.push(ids[next]);
            next += 1;
            let in_flight = orch.in_flight_count();
            assert!(in_flight <= 25);
            if in_flight > max_in_flight {
                max_in_flight = in_flight;
            }
        }
        let rid = running.pop().expect("a task must be in flight");
        assert!(orch.complete_task(rid.id, Ok(ErasedValue::A(ResponseA))));
        completed += 1;
    }
    assert_eq!(max_in_flight, 25);
    for rid in ids {
        match orch.get_response(rid) {
            Retrieval::Done(Ok(ErasedValue::A(_))) => {},
            other => panic!("every request must complete, got {:?}", other),
        }
    }
}

#[test]
fn run_task_delivers_a_typed_response() {
    let mut orch = orchestrator_with_concurrency(1);
    let request = RequestA;
    let rid = orch.add_request(&request).unwrap();
    assert_eq!(rid.kind, KIND_A);
    assert!(matches!(orch.get_response(rid), Retrieval::NotReady));
    assert!(orch.run_task(rid, &request));
    assert_eq!(orch.in_flight_count(), 0);
    match orch.get_response(rid) {
        Retrieval::Done(Ok(ErasedValue::A(_))) => {},
        other => panic!("expected the response of the request kind, got {:?}", other),
    }
}

#[test]
fn run_task_is_refused_while_the_gate_is_full() {
    let mut orch = orchestrator_with_concurrency(1);
    let request = RequestA;
    let rid = orch.add_request(&request).unwrap();
    assert!(orch.begin_task());
    assert!(!orch.run_task(rid, &request));
    assert!(orch.complete_task(rid.id, Ok(ErasedValue::A(ResponseA))));
}

#[test]
fn task_policies_are_independent_copies() {
    let orch = orchestrator_with_concurrency(4);
    let mut first = orch.task_policies();
    let second = orch.task_policies();
    first.retry_policy.failed_request();
    assert_eq!(second.retry_policy, Policies::default().retry_policy);
    assert_eq!(orch.task_policies().retry_policy, Policies::default().retry_policy);
}

#[test]
fn registry_rejects_identifier_collisions() {
    let mut registry = Registry::new();
    assert!(registry.register(5, KIND_A));
    assert!(!registry.register(5, KIND_A));
    assert!(!registry.register(5, KIND_B));
    assert!(registry.contains(5));
    assert!(!registry.contains(6));
}

#[test]
fn registry_fulfills_a_pending_slot_exactly_once() {
    let mut registry = Registry::new();
    assert!(registry.register(9, KIND_A));
    assert!(registry.fulfill(9, Ok(ErasedValue::A(ResponseA))));
    assert!(!registry.fulfill(9, Ok(ErasedValue::A(ResponseA))));
    assert!(!registry.fulfill(10, Ok(ErasedValue::A(ResponseA))));
    assert!(!registry.close(9));
    match registry.take(RequestID { id: 9, kind: KIND_A }) {
        Retrieval::Done(Ok(ErasedValue::A(_))) => {},
        other => panic!("expected the fulfilled value, got {:?}", other),
    }
}

#[test]
fn orchestrator_keys_pass_through_unmodified() {
    let orch = Orchestrator::new(Policies::default(), Keys::new("k".to_string(), Some("org".to_string())));
    assert_eq!(orch.keys().openai_api_key, "k");
    assert_eq!(orch.keys().openai_org_id.as_deref(), Some("org"));
}
