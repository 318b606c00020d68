use event_driven_architecture::aggregate::Task;
use event_driven_architecture::commands::Command;
use event_driven_architecture::errors::Error;
use event_driven_architecture::events::Event;
use event_driven_architecture::inputs;
use event_driven_architecture::store::{
    ConcurrencyConflict, EventLog, ExecuteError, DEFAULT_SNAPSHOT_EVERY,
};
use event_driven_architecture::time::Timestamp;
use event_driven_architecture::update::Update;
use event_driven_architecture::view::{has_unique_keys, project_events, start_view, View, ViewContext};

fn meta(command_id: &str) -> Vec<(String, String)> {
    vec![("command_id".to_string(), command_id.to_string())]
}

fn create(id: &str, name: &str) -> Command {
    Command::Create {
        id: id.to_string(),
        input: inputs::Create { name: name.to_string(), summary: None },
    }
}

fn rename(name: &str) -> Command {
    Command::Update(inputs::Update {
        name: Some(name.to_string()),
        summary: Update::Unchanged,
        done: None,
    })
}

#[test]
fn sequences_run_from_one_without_gaps() {
    let mut log = EventLog::new("t1".to_string(), DEFAULT_SNAPSHOT_EVERY);
    log.execute(create("t1", "a"), Timestamp::from_micros(1), &meta("c1")).unwrap();
    for k in 0..6 {
        log.execute(rename("b"), Timestamp::from_micros(2 + k), &meta("c")).unwrap();
    }
    assert_eq!(log.version(), 7);
    let seqs: Vec<usize> = log.events.iter().map(|e| e.sequence).collect();
    assert_eq!(seqs, vec![1, 2, 3, 4, 5, 6, 7]);
    assert!(log.events.iter().all(|e| e.aggregate_id == "t1"));
}

#[test]
fn stale_append_is_a_conflict() {
    let mut log = EventLog::new("t1".to_string(), 5);
    let t = Task::default();
    let events = t.decide(create("t1", "a"), Timestamp::from_micros(1)).unwrap();
    assert_eq!(log.append(0, events.clone(), &meta("c1")), Ok(()));
    let r = log.append(0, events, &meta("c2"));
    assert_eq!(r, Err(ConcurrencyConflict { expected: 0, actual: 1 }));
    assert_eq!(log.version(), 1);
}

#[test]
fn snapshot_taken_every_interval_and_load_agrees() {
    let mut log = EventLog::new("t1".to_string(), 2);
    log.execute(create("t1", "a"), Timestamp::from_micros(1), &meta("c1")).unwrap();
    assert_eq!(log.snapshot.version, 0);
    log.execute(rename("b"), Timestamp::from_micros(2), &meta("c2")).unwrap();
    assert_eq!(log.snapshot.version, 2);
    assert_eq!(log.snapshot.state.name, "b");
    log.execute(rename("c"), Timestamp::from_micros(3), &meta("c3")).unwrap();
    assert_eq!(log.snapshot.version, 2);
    let (state, version) = log.load();
    assert_eq!(version, 3);
    let mut replayed = Task::default();
    for e in &log.events {
        replayed.apply(e.payload.clone());
    }
    assert_eq!(state, replayed);
    assert_eq!(state.name, "c");
    assert_eq!(state.updated_at, Timestamp::from_micros(3));
}

#[test]
fn refused_command_commits_nothing() {
    let mut log = EventLog::new("t1".to_string(), 5);
    let r = log.execute(Command::Delete, Timestamp::from_micros(1), &meta("c1"));
    assert_eq!(
        r,
        Err(ExecuteError::Domain(Error::NotFound { entity: "Task".to_string() }))
    );
    assert_eq!(log.version(), 0);
}

#[test]
fn end_to_end_create_update_then_read_view() {
    let mut log = EventLog::new("t1".to_string(), DEFAULT_SNAPSHOT_EVERY);
    log.execute(create("t1", "buy milk"), Timestamp::from_micros(10), &meta("c1"))
        .unwrap();
    let done = Command::Update(inputs::Update {
        name: None,
        summary: Update::Unchanged,
        done: Some(true),
    });
    log.execute(done, Timestamp::from_micros(20), &meta("c2")).unwrap();

    let (mut view, ctx) = start_view("t1", None);
    assert_eq!(ctx, ViewContext::new("t1".to_string(), 0));
    project_events(&mut view, &log.events);
    assert_eq!(view.id, "t1");
    assert_eq!(view.aggregate_type, "Task");
    assert_eq!(view.command_id, "c2");
    assert_eq!(view.task.id, "t1");
    assert_eq!(view.task.name, "buy milk");
    assert!(view.task.done);
    assert!(!view.task.deleted);
}

#[test]
fn duplicate_delivery_gives_the_same_row() {
    let mut log = EventLog::new("t1".to_string(), 5);
    log.execute(create("t1", "a"), Timestamp::from_micros(1), &meta("c1")).unwrap();
    let (mut once, _) = start_view("t1", None);
    project_events(&mut once, &log.events);

    let first = log.events.len();
    log.execute(rename("b"), Timestamp::from_micros(2), &meta("c2")).unwrap();
    let clear = Command::Update(inputs::Update {
        name: None,
        summary: Update::Empty,
        done: Some(true),
    });
    log.execute(clear, Timestamp::from_micros(3), &meta("c3")).unwrap();
    let updates: Vec<_> = log.events[first..].to_vec();
    assert!(updates.iter().all(|e| matches!(e.payload, Event::Updated { .. })));

    let mut twice = once.clone();
    project_events(&mut once, &updates);
    project_events(&mut twice, &updates);
    project_events(&mut twice, &updates);
    assert_eq!(once, twice);
    assert_eq!(twice.command_id, "c3");
    assert_eq!(twice.task.name, "b");
}

#[test]
fn stored_row_is_kept_and_missing_command_id_is_empty() {
    let mut row = View::default();
    row.id = "t1".to_string();
    let (v, ctx) = start_view("t1", Some((row, ViewContext::new("t1".to_string(), 4))));
    assert_eq!(v.id, "t1");
    assert_eq!(ctx.version, 4);

    let mut log = EventLog::new("t1".to_string(), 5);
    log.execute(create("t1", "a"), Timestamp::from_micros(1), &Vec::new()).unwrap();
    let (mut view, _) = start_view("t1", None);
    project_events(&mut view, &log.events);
    assert_eq!(view.command_id, "");
}

#[test]
fn metadata_keys_must_be_unique() {
    assert!(has_unique_keys(&meta("c1")));
    assert!(has_unique_keys(&Vec::new()));
    let dup = vec![
        ("command_id".to_string(), "a".to_string()),
        ("user".to_string(), "u".to_string()),
        ("command_id".to_string(), "b".to_string()),
    ];
    assert!(!has_unique_keys(&dup));
}

#[test]
fn execute_appends_the_decided_events() {
    let mut log = EventLog::new("t1".to_string(), 5);
    log.execute(create("t1", "a"), Timestamp::from_micros(1), &meta("c1")).unwrap();
    log.execute(rename("b"), Timestamp::from_micros(2), &meta("c2")).unwrap();
    assert_eq!(log.events.len(), 2);
    let last = &log.events[1];
    assert_eq!(last.sequence, 2);
    assert_eq!(last.metadata, meta("c2"));
    match &last.payload {
        Event::Updated { id, updated_at, update } => {
            assert_eq!(id, "t1");
            assert_eq!(*updated_at, Timestamp::from_micros(2));
            assert_eq!(update.name.as_deref(), Some("b"));
        }
        other => panic!("unexpected event {:?}", other),
    }
}

#[test]
fn fresh_row_starts_at_zero() {
    let (view, ctx) = start_view("t7", None);
    assert_eq!(view, View::default());
    assert_eq!(view.task.created_at, Timestamp::from_micros(0));
    assert_eq!(view.task.updated_at, Timestamp::from_micros(0));
    assert_eq!(view.id, "");
    assert_eq!(view.task.summary, None);
    assert_eq!(ctx, ViewContext::new("t7".to_string(), 0));
}
