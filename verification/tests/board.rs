use rest_server::handlers::{AppendOutcome, Instance};
use rest_server::identity::InstanceIdAllocator;
use rest_server::model::MAX_APPEND_BODY_BYTES;
use rest_server::shared::SharedInstance;

fn ok_body(message: &str) -> Result<String, String> {
    Ok(message.to_string())
}

#[test]
fn scenario_append_append_list() {
    let mut inst = Instance::new(0);
    let r1 = inst.handle_append(12, ok_body("a"));
    assert_eq!(r1.request_count, 1);
    match r1.outcome {
        AppendOutcome::Appended(m) => assert_eq!(m, "a"),
        AppendOutcome::Rejected(e) => panic!("rejected: {}", e),
    }
    let r2 = inst.handle_append(12, ok_body("b"));
    assert_eq!(r2.request_count, 2);
    let r3 = inst.handle_list();
    assert_eq!(r3.request_count, 3);
    assert_eq!(r3.messages, vec!["a".to_string(), "b".to_string()]);
}

#[test]
fn scenario_append_clear_list() {
    let mut inst = Instance::new(0);
    inst.handle_append(12, ok_body("a"));
    let r2 = inst.handle_clear();
    assert_eq!(r2.request_count, 2);
    assert!(r2.messages.is_empty());
    let r3 = inst.handle_list();
    assert_eq!(r3.request_count, 3);
    assert!(r3.messages.is_empty());
}

#[test]
fn scenario_lookup_present_and_absent() {
    let mut inst = Instance::new(0);
    inst.handle_append(12, ok_body("x"));
    let r2 = inst.handle_lookup(0);
    assert_eq!(r2.request_count, 2);
    assert_eq!(r2.result, Some("x".to_string()));
    let r3 = inst.handle_lookup(5);
    assert_eq!(r3.request_count, 3);
    assert_eq!(r3.result, None);
}

#[test]
fn scenario_oversized_append() {
    let mut inst = Instance::new(0);
    let before = inst.request_count();
    let r = inst.handle_append(5000, ok_body("ignored"));
    assert_eq!(r.request_count, before + 1);
    match r.outcome {
        AppendOutcome::Appended(m) => panic!("oversized body accepted: {}", m),
        AppendOutcome::Rejected(e) => assert!(!e.is_empty()),
    }
    // The store was not touched.
    let listing = inst.handle_list();
    assert!(listing.messages.is_empty());
}

#[test]
fn append_body_size_boundary() {
    let mut inst = Instance::new(0);
    let at_limit = inst.handle_append(MAX_APPEND_BODY_BYTES, ok_body("fits"));
    assert!(matches!(at_limit.outcome, AppendOutcome::Appended(_)));
    let over_limit = inst.handle_append(MAX_APPEND_BODY_BYTES + 1, ok_body("fits not"));
    assert!(matches!(over_limit.outcome, AppendOutcome::Rejected(_)));
    let listing = inst.handle_list();
    assert_eq!(listing.messages, vec!["fits".to_string()]);
}

#[test]
fn malformed_append_rejects_and_counts() {
    let mut inst = Instance::new(0);
    let r = inst.handle_append(9, Err("expected a message field".to_string()));
    assert_eq!(r.request_count, 1);
    match r.outcome {
        AppendOutcome::Appended(m) => panic!("malformed body accepted: {}", m),
        AppendOutcome::Rejected(e) => assert_eq!(e, "expected a message field"),
    }
    let listing = inst.handle_list();
    assert!(listing.messages.is_empty());
}

#[test]
fn empty_message_is_accepted() {
    let mut inst = Instance::new(0);
    let r = inst.handle_append(0, ok_body(""));
    assert!(matches!(r.outcome, AppendOutcome::Appended(_)));
    assert_eq!(inst.handle_list().messages, vec![String::new()]);
}

#[test]
fn counter_values_consecutive_and_unique() {
    let mut inst = Instance::new(0);
    let mut seen: Vec<usize> = Vec::new();
    seen.push(inst.handle_list().request_count);
    seen.push(inst.handle_append(7, ok_body("m")).request_count);
    seen.push(inst.handle_lookup(0).request_count);
    seen.push(inst.handle_clear().request_count);
    seen.push(inst.handle_list().request_count);
    assert_eq!(seen, vec![1, 2, 3, 4, 5]);
    assert_eq!(inst.request_count(), 5);
}

#[test]
fn instance_ids_distinct_and_increasing() {
    let mut alloc = InstanceIdAllocator::new();
    let first = alloc.next_instance_id();
    let second = alloc.next_instance_id();
    assert_eq!(first, 0);
    assert_eq!(second, 1);
    assert!(first < second);

    let mut a = Instance::new(first);
    let mut b = Instance::new(second);
    assert_eq!(a.handle_list().server_id, first);
    assert_eq!(a.handle_clear().server_id, first);
    assert_eq!(b.handle_list().server_id, second);
    assert_eq!(b.handle_lookup(3).server_id, second);
}

#[test]
fn many_appends_lose_nothing() {
    let mut inst = Instance::new(4);
    let texts = ["one", "two", "three", "four", "five"];
    for (i, t) in texts.iter().enumerate() {
        let r = inst.handle_append(t.len(), ok_body(t));
        assert_eq!(r.request_count, i + 1);
    }
    let listing = inst.handle_list();
    assert_eq!(listing.messages.len(), texts.len());
    for (i, t) in texts.iter().enumerate() {
        assert_eq!(listing.messages[i], *t);
        assert_eq!(listing.messages.iter().filter(|m| m == t).count(), 1);
    }
}

#[test]
fn shared_instance_reports_one_identity_and_counts() {
    let shared = SharedInstance::new(3);

    let mut g = shared.acquire();
    let r1 = g.handle_append(7, Ok("m".to_string()));
    g.release();
    assert_eq!(r1.server_id, 3);
    assert_eq!(r1.request_count, 1);
    assert!(matches!(r1.outcome, AppendOutcome::Appended(_)));

    let mut g = shared.acquire();
    let r2 = g.handle_list();
    g.release();
    assert_eq!(r2.server_id, 3);
    assert_eq!(r2.request_count, 2);
    assert_eq!(r2.messages, vec!["m".to_string()]);

    let mut g = shared.acquire();
    let r3 = g.handle_lookup(0);
    g.release();
    assert_eq!(r3.server_id, 3);
    assert_eq!(r3.result, Some("m".to_string()));

    let mut g = shared.acquire();
    let r4 = g.handle_clear();
    g.release();
    assert_eq!(r4.server_id, 3);
    assert!(r4.messages.is_empty());
    assert_eq!(r4.request_count, 4);

    let mut g = shared.acquire();
    assert_eq!(g.request_count(), 4);
    let r5 = g.handle_lookup(0);
    g.release();
    assert_eq!(r5.result, None);
}
