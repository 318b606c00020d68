use event_driven_architecture::event::DomainEvent;
use event_driven_architecture::events::Event;
use event_driven_architecture::inputs;
use event_driven_architecture::projectors::{
    audit_key, audit_target, is_task_event, record_text, validate_task_event, AuditBatch, Error as AuditError,
};
use event_driven_architecture::publishers::{
    forward_message, is_insert, ChangeRecord, Error as PublishError, EventLogRecord, ForwardBatch,
};
use event_driven_architecture::time::Timestamp;
use event_driven_architecture::update::Update;

fn log_record(payload: Vec<u8>) -> EventLogRecord {
    EventLogRecord {
        aggregate_type_and_id: "Task:t1".to_string(),
        event_type: "Task:Created".to_string(),
        aggregate_id: "t1".to_string(),
        aggregate_type: "Task".to_string(),
        metadata: b"{\"command_id\":\"c1\"}".to_vec(),
        payload,
        event_version: "1.0".to_string(),
        aggregate_id_sequence: 3,
    }
}

fn change(id: &str, name: &str) -> ChangeRecord {
    ChangeRecord { event_id: id.to_string(), event_name: name.to_string() }
}

fn envelope(entity: &str, id: &str, sequence: usize) -> DomainEvent {
    DomainEvent::new(
        id.to_string(),
        entity.to_string(),
        sequence,
        "Task:Updated".to_string(),
        "1.0".to_string(),
        "{}".to_string(),
        "{}".to_string(),
    )
}

#[test]
fn log_record_becomes_domain_event() {
    let d = DomainEvent::try_from(log_record("{\"x\":1}".as_bytes().to_vec())).unwrap();
    assert_eq!(d.id, "t1");
    assert_eq!(d.entity, "Task");
    assert_eq!(d.sequence, 3);
    assert_eq!(d.event_type, "Task:Created");
    assert_eq!(d.event_version, "1.0");
    assert_eq!(d.payload, "{\"x\":1}");
    assert_eq!(d.metadata, "{\"command_id\":\"c1\"}");
}

#[test]
fn malformed_utf8_is_rejected() {
    let r = DomainEvent::try_from(log_record(vec![0xff, 0xfe]));
    assert_eq!(r, Err(PublishError::Invalid { attribute: "Payload".to_string() }));
    let mut rec = log_record(b"{}".to_vec());
    rec.metadata = vec![0xc3];
    let r = DomainEvent::try_from(rec);
    assert_eq!(r, Err(PublishError::Invalid { attribute: "Metadata".to_string() }));
}

#[test]
fn forwarder_reports_only_the_failed_insert() {
    let payloads = vec![b"{}".to_vec(), vec![0xff], b"{}".to_vec()];
    let records = vec![change("r1", "INSERT"), change("r2", "INSERT"), change("r3", "INSERT")];
    let mut batch = ForwardBatch::new(records);
    let mut attempted = Vec::new();
    while let Some(i) = batch.next_record() {
        attempted.push(i);
        let ok = DomainEvent::try_from(log_record(payloads[i].clone())).is_ok();
        batch.report(ok);
    }
    assert_eq!(attempted, vec![0, 1, 2]);
    assert_eq!(batch.finish(), vec!["r2".to_string()]);
}

#[test]
fn forwarder_skips_changes_that_are_not_inserts() {
    let records = vec![
        change("r1", "MODIFY"),
        change("r2", "INSERT"),
        change("r3", "REMOVE"),
        change("r4", "INSERT"),
    ];
    assert!(!is_insert(&records[0]) && is_insert(&records[1]));
    let mut batch = ForwardBatch::new(records);
    let mut attempted = Vec::new();
    while let Some(i) = batch.next_record() {
        attempted.push(i);
        batch.report(false);
    }
    assert_eq!(attempted, vec![1, 3]);
    assert_eq!(batch.finish(), vec!["r2".to_string(), "r4".to_string()]);
}

#[test]
fn audit_stops_at_first_failure() {
    let events = vec![
        Event::Updated {
            id: "t1".to_string(),
            updated_at: Timestamp::from_micros(1),
            update: inputs::Update { name: None, summary: Update::Value("4".to_string()), done: None },
        },
        Event::Updated {
            id: "t1".to_string(),
            updated_at: Timestamp::from_micros(2),
            update: inputs::Update { name: None, summary: Update::Value("5".to_string()), done: None },
        },
        Event::Updated {
            id: "t1".to_string(),
            updated_at: Timestamp::from_micros(3),
            update: inputs::Update { name: None, summary: Update::Value("6".to_string()), done: None },
        },
    ];
    let mut batch = AuditBatch::new(vec!["A".to_string(), "B".to_string(), "C".to_string()]);
    let mut written = Vec::new();
    while let Some(i) = batch.next_record() {
        let ok = validate_task_event(&events[i]).is_ok();
        if ok {
            written.push(i);
        }
        batch.report(ok);
    }
    assert_eq!(written, vec![0]);
    assert_eq!(batch.next, 1);
    assert_eq!(batch.failures(), vec!["B".to_string(), "C".to_string()]);
}

#[test]
fn audit_without_failures_reports_nothing() {
    let mut batch = AuditBatch::new(vec!["A".to_string(), "B".to_string()]);
    let mut n = 0;
    while let Some(_) = batch.next_record() {
        n += 1;
        batch.report(true);
    }
    assert_eq!(n, 2);
    assert!(batch.failures().is_empty());
}

#[test]
fn poison_summary_is_refused() {
    let poison = Event::Updated {
        id: "t1".to_string(),
        updated_at: Timestamp::from_micros(1),
        update: inputs::Update { name: None, summary: Update::Value("5".to_string()), done: None },
    };
    assert_eq!(validate_task_event(&poison), Err(AuditError::InvalidSummary("5".to_string())));
    let cleared = Event::Updated {
        id: "t1".to_string(),
        updated_at: Timestamp::from_micros(1),
        update: inputs::Update { name: None, summary: Update::Empty, done: None },
    };
    assert_eq!(validate_task_event(&cleared), Ok(()));
    let deleted = Event::Deleted { id: "t1".to_string(), updated_at: Timestamp::from_micros(1) };
    assert_eq!(validate_task_event(&deleted), Ok(()));
}

#[test]
fn audit_key_layout() {
    assert_eq!(audit_key(&envelope("Task", "01HX", 12)), "events/Task/01HX-12.json");
    assert_eq!(audit_key(&envelope("Task", "t1", 0)), "events/Task/t1-0.json");
    assert_eq!(audit_key(&envelope("Order", "o", 1070)), "events/Order/o-1070.json");
    assert!(is_task_event(&envelope("Task", "t1", 1)));
    assert!(!is_task_event(&envelope("Order", "t1", 1)));
}

#[test]
fn record_text_checks_utf8() {
    assert_eq!(record_text("héllo".as_bytes().to_vec()), Ok("héllo".to_string()));
    assert_eq!(record_text(vec![0x80]), Err(AuditError::Utf8));
}

#[test]
fn forward_message_keys_by_aggregate_type() {
    let (key, event) = forward_message(log_record(b"{}".to_vec())).unwrap();
    assert_eq!(key, "Task");
    assert_eq!(event.sequence, 3);
    assert_eq!(event.payload, "{}");
    assert_eq!(
        forward_message(log_record(vec![0xff])),
        Err(PublishError::Invalid { attribute: "Payload".to_string() })
    );
}

#[test]
fn audit_target_applies_the_supplied_check() {
    let poison = Event::Updated {
        id: "t1".to_string(),
        updated_at: Timestamp::from_micros(1),
        update: inputs::Update { name: None, summary: Update::Value("5".to_string()), done: None },
    };
    let fine = Event::Deleted { id: "t1".to_string(), updated_at: Timestamp::from_micros(1) };
    let task = envelope("Task", "t1", 4);
    assert_eq!(
        audit_target(&task, Some(&poison), validate_task_event),
        Err(AuditError::InvalidSummary("5".to_string()))
    );
    assert_eq!(
        audit_target(&task, Some(&fine), validate_task_event),
        Ok("events/Task/t1-4.json".to_string())
    );
    let strict = |_: &Event| Err(AuditError::Json("refused".to_string()));
    assert_eq!(
        audit_target(&task, Some(&fine), strict),
        Err(AuditError::Json("refused".to_string()))
    );
    let other = envelope("Order", "o1", 2);
    assert_eq!(
        audit_target(&other, None, validate_task_event),
        Ok("events/Order/o1-2.json".to_string())
    );
}
