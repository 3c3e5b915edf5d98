use firewood_bank::audit::{audit_change, audit_db, AuditLog, FieldValue};

fn some(text: &str) -> Option<String> {
    Some(text.to_string())
}

fn value(field: &str, old: Option<&str>, new: Option<&str>) -> FieldValue {
    FieldValue {
        field: field.to_string(),
        old_value: old.map(|s| s.to_string()),
        new_value: new.map(|s| s.to_string()),
    }
}

#[test]
fn an_event_row_carries_event_role_and_actor() {
    let row = audit_db("list_users", "admin", "al");
    assert_eq!(row.event, "list_users");
    assert_eq!(row.role, "admin");
    assert_eq!(row.actor, "al");
    assert_eq!(row.change, None);
    assert_eq!(row.id.len(), 36);
    assert_ne!(row.id, audit_db("list_users", "admin", "al").id);
}

#[test]
fn a_change_row_is_made_only_for_a_change() {
    assert!(audit_change("e", "r", "a", "clients", "c1", "notes", None, None).is_none());
    assert!(audit_change("e", "r", "a", "clients", "c1", "notes", some("x"), some("x")).is_none());
    assert!(audit_change("e", "r", "a", "clients", "c1", "notes", some(""), some("")).is_none());
    let row = audit_change("e", "r", "a", "clients", "c1", "notes", None, some("")).unwrap();
    let change = row.change.unwrap();
    assert_eq!(change.old_value, None);
    assert_eq!(change.new_value, some(""));
    let row = audit_change("update_client", "lead", "lee", "clients", "c1", "notes", some("x"), None).unwrap();
    assert_eq!(row.event, "update_client");
    assert_eq!(row.role, "lead");
    assert_eq!(row.actor, "lee");
    let change = row.change.unwrap();
    assert_eq!(change.entity, "clients");
    assert_eq!(change.entity_id, "c1");
    assert_eq!(change.field, "notes");
    assert_eq!(change.old_value, some("x"));
    assert_eq!(change.new_value, None);
    assert!(audit_change("e", "r", "a", "clients", "c1", "notes", some("x"), some("X")).is_some());
}

#[test]
fn what_was_recorded_is_read_back() {
    let mut log = AuditLog::new();
    log.record_event("update_client", "admin", "al");
    log.record_field_change("update_client", "admin", "al", "clients", "c2", "notes", None, some("other client"));
    let batch = vec![
        value("name", Some("Ada"), Some("Ada Birch")),
        value("email", None, None),
        value("telephone", Some("1"), Some("1")),
        value("notes", Some("x"), None),
        value("gate_combo", None, Some("4321")),
    ];
    log.record_field_changes("update_client", "admin", "al", "clients", "c1", &batch);
    assert_eq!(log.entries.len(), 5);
    let read = log.changes_for("clients", "c1");
    assert_eq!(
        read,
        vec![
            value("name", Some("Ada"), Some("Ada Birch")),
            value("notes", Some("x"), None),
            value("gate_combo", None, Some("4321")),
        ]
    );
    assert_eq!(log.changes_for("clients", "c2"), vec![value("notes", None, Some("other client"))]);
    assert!(log.changes_for("clients", "c3").is_empty());
    assert!(log.changes_for("work_orders", "c1").is_empty());
    for entry in &log.entries[2..] {
        assert_eq!(entry.event, "update_client");
        let change = entry.change.clone().unwrap();
        assert_eq!(change.entity, "clients");
        assert_eq!(change.entity_id, "c1");
    }
}

#[test]
fn the_log_only_grows() {
    let mut log = AuditLog::new();
    assert!(log.entries.is_empty());
    log.record_event("a", "r", "x");
    let first = log.entries.clone();
    log.record_field_changes("b", "r", "x", "clients", "c1", &vec![value("f", None, Some("1")), value("g", None, None)]);
    assert_eq!(log.entries.len(), 2);
    assert_eq!(log.entries[..1], first[..]);
    log.record_field_changes("b", "r", "x", "clients", "c1", &Vec::new());
    assert_eq!(log.entries.len(), 2);
}

#[test]
fn after_a_failure_of_the_store_only_the_events_are_written() {
    let mut log = AuditLog::new();
    log.record_event("update_client", "lead", "lee");
    log.record_field_changes(
        "update_client",
        "lead",
        "lee",
        "clients",
        "c1",
        &vec![value("notes", Some("old"), Some("new")), value("email", None, Some("a@b.c"))],
    );
    log.record_event("update_client_done", "lead", "lee");
    assert_eq!(log.entries.len(), 4);
    let all = log.clone().to_write(true);
    assert_eq!(all, log);
    let held = log.clone().to_write(false);
    assert_eq!(held.entries.len(), 2);
    assert_eq!(held.entries[0], log.entries[0]);
    assert_eq!(held.entries[1], log.entries[3]);
    assert!(held.entries.iter().all(|entry| entry.change.is_none()));
    assert_eq!(AuditLog::new().to_write(false).entries.len(), 0);
}
