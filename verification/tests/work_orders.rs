use firewood_bank::audit::AuditLog;
use firewood_bank::error::{Denial, Error, Invalid, Missing};
use firewood_bank::inventory::InventoryItem;
use firewood_bank::records::{DeliveryEvent, WorkOrder, WorkOrderAssignmentInput, WorkOrderInput, WorkOrderStatusInput};
use firewood_bank::status::WorkOrderStatus;
use firewood_bank::work_order::{
    create_work_order, mirror_assignees, plan_work_order, resolve_quantity, update_work_order_assignees,
    update_work_order_status,
};

fn some(text: &str) -> Option<String> {
    Some(text.to_string())
}

fn wood(on_hand: i64, reserved: i64) -> Vec<InventoryItem> {
    vec![InventoryItem {
        id: "stock-1".to_string(),
        name: "Firewood".to_string(),
        category: None,
        unit: "cord".to_string(),
        quantity_on_hand: on_hand,
        reserved_quantity: reserved,
        reorder_threshold: 2,
        reorder_amount: None,
        notes: None,
        created_at: "2025-01-01 00:00:00".to_string(),
        is_deleted: false,
    }]
}

fn input(status: Option<&str>, cords: Option<i64>) -> WorkOrderInput {
    WorkOrderInput {
        client_id: "client-1".to_string(),
        client_title: some("Ms"),
        client_name: "Ada Birch".to_string(),
        physical_address_line1: "1 Mill Road".to_string(),
        physical_address_line2: None,
        physical_address_city: "Salida".to_string(),
        physical_address_state: "CO".to_string(),
        physical_address_postal_code: "81201".to_string(),
        mailing_address_line1: None,
        mailing_address_line2: None,
        mailing_address_city: None,
        mailing_address_state: None,
        mailing_address_postal_code: None,
        telephone: some("555-0100"),
        email: some("ada@example.org"),
        directions: some("past the barn"),
        gate_combo: some("4321"),
        mileage: None,
        other_heat_source_gas: true,
        other_heat_source_electric: false,
        other_heat_source_other: some("pellets"),
        notes: some("dog in yard"),
        scheduled_date: None,
        status: status.map(|s| s.to_string()),
        wood_size_label: some("16in"),
        wood_size_other: None,
        delivery_size_label: some("half"),
        delivery_size_cords: cords,
        pickup_delivery_type: None,
        pickup_quantity_cords: None,
        pickup_length: None,
        pickup_width: None,
        pickup_height: None,
        pickup_units: None,
        assignees_json: None,
        created_by_user_id: some("user-9"),
        created_by_display: some("Sam"),
        paired_order_id: None,
    }
}

fn status_input(status: Option<&str>, mileage: Option<i64>, is_driver: Option<bool>) -> WorkOrderStatusInput {
    WorkOrderStatusInput {
        work_order_id: "order-1".to_string(),
        status: status.map(|s| s.to_string()),
        mileage,
        is_driver,
    }
}

fn stored(status: WorkOrderStatus, cords: i64) -> WorkOrder {
    let mut items = wood(1000, 0);
    let mut log = AuditLog::new();
    let created = plan_work_order(
        input(None, Some(cords)),
        some("admin"),
        "order-1".to_string(),
        "event-1".to_string(),
        &mut items,
        &mut log,
    )
    .unwrap();
    let mut order = created.order;
    order.status = status;
    order
}

fn is_uuid(text: &str) -> bool {
    text.len() == 36
        && text.chars().enumerate().all(|(i, c)| {
            if i == 8 || i == 13 || i == 18 || i == 23 {
                c == '-'
            } else {
                c.is_ascii_digit() || ('a'..='f').contains(&c)
            }
        })
}

#[test]
fn an_order_is_scheduled_and_then_completed() {
    let mut items = wood(10, 0);
    let mut log = AuditLog::new();
    let created = create_work_order(input(Some("scheduled"), Some(4)), some("admin"), &mut items, &mut log).unwrap();
    assert_eq!(created.order.status, WorkOrderStatus::Scheduled);
    assert_eq!(created.stock, Some(0));
    assert_eq!((items[0].quantity_on_hand, items[0].reserved_quantity), (10, 4));

    let mut request = status_input(Some("completed"), Some(12), None);
    request.work_order_id = created.order.id.clone();
    let updated = update_work_order_status(
        Some(created.order),
        &request,
        some("admin"),
        some("sam"),
        &mut items,
        &mut log,
    )
    .unwrap();
    assert_eq!(updated.order.status, WorkOrderStatus::Completed);
    assert_eq!(updated.stock, Some(0));
    assert_eq!((items[0].quantity_on_hand, items[0].reserved_quantity), (6, 0));
}

#[test]
fn scheduling_more_than_is_in_stock_fails() {
    let mut items = wood(3, 0);
    let mut log = AuditLog::new();
    let created = create_work_order(input(None, Some(5)), some("staff"), &mut items, &mut log).unwrap();
    assert_eq!(created.order.status, WorkOrderStatus::Draft);
    assert_eq!((items[0].quantity_on_hand, items[0].reserved_quantity), (3, 0));
    let order = created.order;

    let mut request = status_input(Some("scheduled"), None, None);
    request.work_order_id = order.id.clone();
    let outcome = update_work_order_status(Some(order.clone()), &request, some("staff"), None, &mut items, &mut log);
    assert_eq!(outcome, Err(Error::InsufficientInventory));
    assert_eq!((items[0].quantity_on_hand, items[0].reserved_quantity), (3, 0));
    assert_eq!(order.status, WorkOrderStatus::Draft);

    let mut items = wood(3, 0);
    let outcome = create_work_order(input(Some("scheduled"), Some(5)), some("staff"), &mut items, &mut log);
    assert_eq!(outcome, Err(Error::InsufficientInventory));
    assert_eq!(items, wood(3, 0));
}

#[test]
fn an_unchanged_field_leaves_no_audit_row() {
    let mut log = AuditLog::new();
    let recorded = log.record_field_change("update_work_order", "admin", "sam", "work_orders", "order-1", "notes", some("old"), some("old"));
    assert!(!recorded);
    assert_eq!(log.entries.len(), 0);
    let recorded = log.record_field_change("update_work_order", "admin", "sam", "work_orders", "order-1", "notes", some("old"), some("new"));
    assert!(recorded);
    assert_eq!(log.entries.len(), 1);
    let change = log.entries[0].change.clone().unwrap();
    assert_eq!(change.old_value, some("old"));
    assert_eq!(change.new_value, some("new"));
    assert_eq!(change.field, "notes");
    assert_eq!(change.entity, "work_orders");
    assert_eq!(change.entity_id, "order-1");
}

#[test]
fn only_admin_and_staff_create_orders() {
    for role in ["lead", "driver", "volunteer", "janitor", ""] {
        let mut items = wood(10, 0);
        let mut log = AuditLog::new();
        let outcome = create_work_order(input(Some("scheduled"), Some(4)), some(role), &mut items, &mut log);
        assert_eq!(outcome, Err(Error::Forbidden(Denial::CreateNeedsStaffOrAdmin)));
        assert_eq!(items, wood(10, 0));
        assert!(log.entries.is_empty());
    }
    for role in [some("admin"), some("STAFF"), some("Admin"), None] {
        let mut items = wood(10, 0);
        let mut log = AuditLog::new();
        assert!(create_work_order(input(None, Some(4)), role, &mut items, &mut log).is_ok());
        assert_eq!(log.entries.len(), 1);
        assert_eq!(log.entries[0].event, "create_work_order");
        assert_eq!(log.entries[0].actor, "unknown");
        assert!(log.entries[0].change.is_none());
    }
}

#[test]
fn an_order_without_a_status_starts_as_a_draft() {
    let mut items = wood(10, 0);
    let mut log = AuditLog::new();
    let created = create_work_order(input(None, Some(4)), None, &mut items, &mut log).unwrap();
    assert_eq!(created.order.status, WorkOrderStatus::Draft);
    assert_eq!(created.stock, Some(0));
    assert_eq!(items, wood(10, 0));
}

#[test]
fn the_role_is_noted_in_lowercase() {
    let mut items = wood(10, 0);
    let mut log = AuditLog::new();
    create_work_order(input(None, None), some("StAfF"), &mut items, &mut log).unwrap();
    assert_eq!(log.entries[0].role, "staff");
    let mut log = AuditLog::new();
    create_work_order(input(None, None), None, &mut items, &mut log).unwrap();
    assert_eq!(log.entries[0].role, "admin");
}

#[test]
fn a_created_order_carries_the_request() {
    let mut items = wood(10, 0);
    let mut log = AuditLog::new();
    let created = plan_work_order(
        input(Some("In_Progress"), Some(2)),
        some("admin"),
        "order-7".to_string(),
        "event-7".to_string(),
        &mut items,
        &mut log,
    )
    .unwrap();
    let order = created.order;
    assert_eq!(order.id, "order-7");
    assert_eq!(order.status, WorkOrderStatus::InProgress);
    assert_eq!(order.client_id, "client-1");
    assert_eq!(order.client_title, some("Ms"));
    assert_eq!(order.client_name, "Ada Birch");
    assert_eq!(order.physical_address.line1, "1 Mill Road");
    assert_eq!(order.physical_address.line2, None);
    assert_eq!(order.physical_address.city, "Salida");
    assert_eq!(order.physical_address.state, "CO");
    assert_eq!(order.physical_address.postal_code, "81201");
    assert_eq!(order.contact.telephone, some("555-0100"));
    assert_eq!(order.contact.email, some("ada@example.org"));
    assert_eq!(order.directions, some("past the barn"));
    assert_eq!(order.gate_combo, some("4321"));
    assert!(order.other_heat_source.gas);
    assert!(!order.other_heat_source.electric);
    assert_eq!(order.other_heat_source.other, some("pellets"));
    assert_eq!(order.notes, some("dog in yard"));
    assert_eq!(order.delivery_size_cords, Some(2));
    assert_eq!(order.delivery_size_label, some("half"));
    assert_eq!(order.wood_size_label, some("16in"));
    assert_eq!(order.assignees_json, some("[]"));
    assert_eq!(order.created_by_user_id, some("user-9"));
    assert_eq!(order.created_by_display, some("Sam"));
    assert_eq!(order.paired_order_id, None);
    assert_eq!(order.mileage, None);
    assert!(!order.is_deleted);
    assert_eq!(created.back_reference, None);
    assert_eq!(created.delivery_event, None);
    assert_eq!(items[0].reserved_quantity, 2);
}

#[test]
fn new_orders_get_fresh_identifiers() {
    let mut items = wood(10, 0);
    let mut log = AuditLog::new();
    let mut request = input(None, None);
    request.scheduled_date = some("2025-11-03");
    let first = create_work_order(request.clone(), None, &mut items, &mut log).unwrap();
    let second = create_work_order(request, None, &mut items, &mut log).unwrap();
    assert!(is_uuid(&first.order.id));
    assert!(is_uuid(&second.order.id));
    assert_ne!(first.order.id, second.order.id);
    let event = first.delivery_event.unwrap();
    assert!(is_uuid(&event.id));
    assert_ne!(event.id, first.order.id);
    assert_eq!(event.work_order_id, Some(first.order.id.clone()));
    assert!(log.entries.iter().all(|e| is_uuid(&e.id)));
}

#[test]
fn a_scheduled_date_makes_a_calendar_entry_with_the_assignees() {
    let mut items = wood(10, 0);
    let mut log = AuditLog::new();
    let mut request = input(Some("scheduled"), Some(1));
    request.scheduled_date = some("2025-11-03");
    request.assignees_json = some("[\"dana\",\"eli\"]");
    let created = plan_work_order(request, None, "order-2".to_string(), "event-2".to_string(), &mut items, &mut log).unwrap();
    assert_eq!(
        created.delivery_event,
        Some(DeliveryEvent {
            id: "event-2".to_string(),
            title: "Work Order Scheduled".to_string(),
            description: some("Work order scheduled for 2025-11-03"),
            event_type: "scheduled".to_string(),
            work_order_id: some("order-2"),
            start_date: "2025-11-03".to_string(),
            end_date: some("2025-11-03"),
            color_code: some("#3174ad"),
            assigned_user_ids_json: "[\"dana\",\"eli\"]".to_string(),
        })
    );
    assert_eq!(created.order.assignees_json, some("[\"dana\",\"eli\"]"));
    assert_eq!(created.order.scheduled_date, some("2025-11-03"));
}

#[test]
fn a_pair_is_told_to_point_back() {
    let mut items = wood(10, 0);
    let mut log = AuditLog::new();
    let mut request = input(None, None);
    request.paired_order_id = some("order-0");
    let created = plan_work_order(request, None, "order-3".to_string(), "event-3".to_string(), &mut items, &mut log).unwrap();
    let back = created.back_reference.unwrap();
    assert_eq!(back.order_id, "order-0");
    assert_eq!(back.paired_order_id, "order-3");
    assert_eq!(created.order.paired_order_id, some("order-0"));

    let mut request = input(None, None);
    request.paired_order_id = some("");
    let created = plan_work_order(request, None, "order-4".to_string(), "event-4".to_string(), &mut items, &mut log).unwrap();
    assert_eq!(created.back_reference, None);
}

#[test]
fn an_unknown_status_is_turned_down() {
    let mut items = wood(10, 0);
    let mut log = AuditLog::new();
    let outcome = create_work_order(input(Some("picked_up"), Some(1)), None, &mut items, &mut log);
    assert_eq!(outcome, Err(Error::Validation(Invalid::UnknownStatus)));
    assert_eq!(items, wood(10, 0));
    assert_eq!(log.entries.len(), 1);
    let outcome = update_work_order_status(
        Some(stored(WorkOrderStatus::Draft, 1)),
        &status_input(Some("done"), Some(1), None),
        None,
        None,
        &mut items,
        &mut log,
    );
    assert_eq!(outcome, Err(Error::Validation(Invalid::UnknownStatus)));
}

#[test]
fn creation_without_a_wood_record_fails_only_if_wood_is_needed() {
    let mut none: Vec<InventoryItem> = Vec::new();
    let mut log = AuditLog::new();
    assert_eq!(
        create_work_order(input(Some("scheduled"), Some(1)), None, &mut none, &mut log),
        Err(Error::NoTrackedStock)
    );
    assert_eq!(
        create_work_order(input(Some("draft"), Some(1)), None, &mut none, &mut log),
        Err(Error::NoTrackedStock)
    );
    let created = create_work_order(input(Some("scheduled"), None), None, &mut none, &mut log).unwrap();
    assert_eq!(created.stock, None);
}

#[test]
fn the_quantity_follows_the_kind_of_fulfilment() {
    assert_eq!(resolve_quantity(&None, Some(3), Some(5)), 5);
    assert_eq!(resolve_quantity(&some("delivery"), Some(3), Some(5)), 5);
    assert_eq!(resolve_quantity(&some("pickup"), Some(3), Some(5)), 3);
    assert_eq!(resolve_quantity(&some("PickUp"), Some(3), Some(5)), 3);
    assert_eq!(resolve_quantity(&some("pickup"), None, Some(5)), 0);
    assert_eq!(resolve_quantity(&None, Some(3), None), 0);

    let mut items = wood(10, 0);
    let mut log = AuditLog::new();
    let mut request = input(Some("scheduled"), Some(5));
    request.pickup_delivery_type = some("pickup");
    request.pickup_quantity_cords = Some(3);
    create_work_order(request, None, &mut items, &mut log).unwrap();
    assert_eq!(items[0].reserved_quantity, 3);
}

#[test]
fn an_order_other_than_the_one_named_is_not_found() {
    let mut items = wood(10, 0);
    let mut log = AuditLog::new();
    let mut request = status_input(Some("scheduled"), None, None);
    request.work_order_id = "order-2".to_string();
    let outcome = update_work_order_status(Some(stored(WorkOrderStatus::Draft, 1)), &request, None, None, &mut items, &mut log);
    assert_eq!(outcome, Err(Error::NotFound(Missing::WorkOrder)));
    assert_eq!(items, wood(10, 0));
    let mut events: Vec<DeliveryEvent> = Vec::new();
    let outcome = update_work_order_assignees(
        Some(stored(WorkOrderStatus::Draft, 1)),
        WorkOrderAssignmentInput { work_order_id: "order-2".to_string(), assignees_json: None },
        None,
        None,
        &mut events,
        &mut log,
    );
    assert_eq!(outcome, Err(Error::NotFound(Missing::WorkOrder)));
}

#[test]
fn a_missing_or_deleted_order_is_not_found() {
    let mut items = wood(10, 0);
    let mut log = AuditLog::new();
    let outcome = update_work_order_status(None, &status_input(Some("scheduled"), None, None), None, None, &mut items, &mut log);
    assert_eq!(outcome, Err(Error::NotFound(Missing::WorkOrder)));
    let mut order = stored(WorkOrderStatus::Draft, 1);
    order.is_deleted = true;
    let outcome = update_work_order_status(Some(order), &status_input(Some("scheduled"), None, None), None, None, &mut items, &mut log);
    assert_eq!(outcome, Err(Error::NotFound(Missing::WorkOrder)));
    assert_eq!(items, wood(10, 0));
    assert_eq!(log.entries.len(), 2);
    assert!(log.entries.iter().all(|e| e.event == "update_work_order_status" && e.change.is_none()));
    assert_eq!(log.entries[0].role, "admin");
    assert_eq!(log.entries[0].actor, "unknown");
}

#[test]
fn closing_an_order_needs_a_mileage() {
    for status in ["completed", "delivered", "Completed"] {
        let mut items = wood(10, 4);
        let mut log = AuditLog::new();
        let outcome = update_work_order_status(
            Some(stored(WorkOrderStatus::InProgress, 4)),
            &status_input(Some(status), None, Some(true)),
            some("driver"),
            some("dana"),
            &mut items,
            &mut log,
        );
        assert_eq!(outcome, Err(Error::Validation(Invalid::MileageMissing)));
        assert_eq!(items, wood(10, 4));
    }
    let mut items = wood(10, 4);
    let mut log = AuditLog::new();
    let outcome = update_work_order_status(
        Some(stored(WorkOrderStatus::InProgress, 4)),
        &status_input(Some("issue"), None, Some(true)),
        some("driver"),
        some("dana"),
        &mut items,
        &mut log,
    );
    assert_eq!(outcome.unwrap().order.status, WorkOrderStatus::Issue);
    assert_eq!((items[0].quantity_on_hand, items[0].reserved_quantity), (10, 0));
}

#[test]
fn a_completed_order_kept_as_it_is_still_needs_a_mileage() {
    let mut items = wood(10, 0);
    let mut log = AuditLog::new();
    let outcome = update_work_order_status(
        Some(stored(WorkOrderStatus::Completed, 4)),
        &status_input(None, None, None),
        None,
        None,
        &mut items,
        &mut log,
    );
    assert_eq!(outcome, Err(Error::Validation(Invalid::MileageMissing)));
}

#[test]
fn a_volunteer_who_is_no_driver_changes_nothing() {
    let mut items = wood(10, 0);
    let mut log = AuditLog::new();
    let outcome = update_work_order_status(
        Some(stored(WorkOrderStatus::Draft, 4)),
        &status_input(Some("scheduled"), None, None),
        some("Volunteer"),
        None,
        &mut items,
        &mut log,
    );
    assert_eq!(outcome, Err(Error::Forbidden(Denial::VolunteerUpdate)));
    assert_eq!(items, wood(10, 0));
    let outcome = update_work_order_status(
        Some(stored(WorkOrderStatus::Scheduled, 4)),
        &status_input(Some("in_progress"), None, Some(true)),
        some("volunteer"),
        None,
        &mut wood(10, 4),
        &mut log,
    );
    assert_eq!(outcome.unwrap().order.status, WorkOrderStatus::InProgress);
}

#[test]
fn a_driver_names_only_statuses_open_to_drivers() {
    for status in ["draft", "scheduled", "cancelled"] {
        let mut items = wood(10, 4);
        let mut log = AuditLog::new();
        let outcome = update_work_order_status(
            Some(stored(WorkOrderStatus::InProgress, 4)),
            &status_input(Some(status), Some(3), Some(true)),
            some("driver"),
            None,
            &mut items,
            &mut log,
        );
        assert_eq!(outcome, Err(Error::Forbidden(Denial::DriverStatus)));
        assert_eq!(items, wood(10, 4));
    }
    for (status, expected) in [
        ("in_progress", WorkOrderStatus::InProgress),
        ("delivered", WorkOrderStatus::Delivered),
        ("completed", WorkOrderStatus::Completed),
        ("issue", WorkOrderStatus::Issue),
    ] {
        let mut items = wood(10, 4);
        let mut log = AuditLog::new();
        let outcome = update_work_order_status(
            Some(stored(WorkOrderStatus::Scheduled, 4)),
            &status_input(Some(status), Some(3), Some(true)),
            some("admin"),
            None,
            &mut items,
            &mut log,
        );
        assert_eq!(outcome.unwrap().order.status, expected);
    }
    let mut items = wood(10, 0);
    let mut log = AuditLog::new();
    let outcome = update_work_order_status(
        Some(stored(WorkOrderStatus::Draft, 4)),
        &status_input(None, Some(3), Some(true)),
        some("driver"),
        None,
        &mut items,
        &mut log,
    );
    let updated = outcome.unwrap();
    assert_eq!(updated.order.status, WorkOrderStatus::Draft);
    assert_eq!(updated.order.mileage, Some(3));
}

#[test]
fn the_error_that_comes_first_wins() {
    let mut items = wood(10, 0);
    let mut log = AuditLog::new();
    let outcome = update_work_order_status(None, &status_input(Some("nonsense"), None, None), some("volunteer"), None, &mut items, &mut log);
    assert_eq!(outcome, Err(Error::NotFound(Missing::WorkOrder)));
    let outcome = update_work_order_status(
        Some(stored(WorkOrderStatus::Draft, 4)),
        &status_input(Some("nonsense"), None, None),
        some("volunteer"),
        None,
        &mut items,
        &mut log,
    );
    assert_eq!(outcome, Err(Error::Validation(Invalid::UnknownStatus)));
    let outcome = update_work_order_status(
        Some(stored(WorkOrderStatus::Draft, 4)),
        &status_input(Some("completed"), None, None),
        some("volunteer"),
        None,
        &mut items,
        &mut log,
    );
    assert_eq!(outcome, Err(Error::Validation(Invalid::MileageMissing)));
    let outcome = update_work_order_status(
        Some(stored(WorkOrderStatus::Draft, 40)),
        &status_input(Some("scheduled"), None, None),
        some("volunteer"),
        None,
        &mut items,
        &mut log,
    );
    assert_eq!(outcome, Err(Error::Forbidden(Denial::VolunteerUpdate)));
    let outcome = update_work_order_status(
        Some(stored(WorkOrderStatus::Draft, 40)),
        &status_input(Some("scheduled"), None, None),
        some("staff"),
        None,
        &mut items,
        &mut log,
    );
    assert_eq!(outcome, Err(Error::InsufficientInventory));
}

#[test]
fn only_a_driver_sets_the_mileage() {
    let mut items = wood(10, 4);
    let mut log = AuditLog::new();
    let updated = update_work_order_status(
        Some(stored(WorkOrderStatus::Scheduled, 4)),
        &status_input(Some("completed"), Some(12), None),
        some("staff"),
        some("sam"),
        &mut items,
        &mut log,
    )
    .unwrap();
    assert_eq!(updated.order.mileage, None);
    let changes: Vec<_> = log.entries.iter().filter_map(|e| e.change.clone()).collect();
    assert_eq!(changes.len(), 1);
    assert_eq!(changes[0].field, "status");

    let mut items = wood(10, 4);
    let mut log = AuditLog::new();
    let mut order = stored(WorkOrderStatus::Scheduled, 4);
    order.mileage = Some(7_000);
    let updated = update_work_order_status(
        Some(order),
        &status_input(Some("completed"), Some(12_500), Some(true)),
        some("driver"),
        some("dana"),
        &mut items,
        &mut log,
    )
    .unwrap();
    assert_eq!(updated.order.mileage, Some(12_500));
    let changes: Vec<_> = log.entries.iter().filter_map(|e| e.change.clone()).collect();
    assert_eq!(changes.len(), 2);
    assert_eq!(changes[0].field, "status");
    assert_eq!(changes[0].old_value, some("scheduled"));
    assert_eq!(changes[0].new_value, some("completed"));
    assert_eq!(changes[1].field, "mileage");
    assert_eq!(changes[1].old_value, some("7"));
    assert_eq!(changes[1].new_value, some("12.5"));
    assert!(changes.iter().all(|c| c.entity == "work_orders" && c.entity_id == "order-1"));
    assert!(log.entries.iter().all(|e| e.event == "update_work_order_status" && e.role == "driver" && e.actor == "dana"));
}

#[test]
fn a_request_that_changes_nothing_leaves_only_the_event() {
    let mut items = wood(10, 4);
    let mut log = AuditLog::new();
    let mut order = stored(WorkOrderStatus::Scheduled, 4);
    order.mileage = Some(7);
    let updated = update_work_order_status(
        Some(order.clone()),
        &status_input(Some("SCHEDULED"), Some(7), Some(true)),
        some("driver"),
        some("dana"),
        &mut items,
        &mut log,
    );
    // `scheduled` is not open to drivers
    assert_eq!(updated, Err(Error::Forbidden(Denial::DriverStatus)));
    let mut log = AuditLog::new();
    let updated = update_work_order_status(
        Some(order.clone()),
        &status_input(None, Some(7), Some(true)),
        some("driver"),
        some("dana"),
        &mut items,
        &mut log,
    )
    .unwrap();
    assert_eq!(updated.order, order);
    assert_eq!(updated.stock, None);
    assert_eq!(items, wood(10, 4));
    assert_eq!(log.entries.len(), 1);
    assert!(log.entries[0].change.is_none());
}

#[test]
fn a_status_change_leaves_the_rest_of_the_order_alone() {
    let mut items = wood(10, 0);
    let mut log = AuditLog::new();
    let order = stored(WorkOrderStatus::Draft, 4);
    let updated = update_work_order_status(
        Some(order.clone()),
        &status_input(Some("scheduled"), None, None),
        None,
        None,
        &mut items,
        &mut log,
    )
    .unwrap();
    let mut expected = order;
    expected.status = WorkOrderStatus::Scheduled;
    assert_eq!(updated.order, expected);
    assert_eq!(updated.stock, Some(0));
    assert_eq!(items[0].reserved_quantity, 4);
}

#[test]
fn the_ledger_is_left_alone_when_the_status_stays() {
    let mut items = wood(10, 0);
    let mut log = AuditLog::new();
    let updated = update_work_order_status(
        Some(stored(WorkOrderStatus::Completed, 4)),
        &status_input(Some("completed"), Some(5), None),
        None,
        None,
        &mut items,
        &mut log,
    )
    .unwrap();
    assert_eq!(updated.stock, None);
    assert_eq!(items, wood(10, 0));
    let mut none: Vec<InventoryItem> = Vec::new();
    let updated = update_work_order_status(
        Some(stored(WorkOrderStatus::Scheduled, 4)),
        &status_input(None, None, None),
        None,
        None,
        &mut none,
        &mut log,
    );
    assert!(updated.is_ok());
}

fn event(id: &str, order: Option<&str>, assigned: &str) -> DeliveryEvent {
    DeliveryEvent {
        id: id.to_string(),
        title: "Work Order Scheduled".to_string(),
        description: None,
        event_type: "scheduled".to_string(),
        work_order_id: order.map(|s| s.to_string()),
        start_date: "2025-11-03".to_string(),
        end_date: None,
        color_code: None,
        assigned_user_ids_json: assigned.to_string(),
    }
}

#[test]
fn only_admins_and_leads_assign() {
    for role in ["staff", "driver", "volunteer", "other"] {
        let mut events = vec![event("e1", Some("order-1"), "[]")];
        let mut log = AuditLog::new();
        let outcome = update_work_order_assignees(
            Some(stored(WorkOrderStatus::Draft, 1)),
            WorkOrderAssignmentInput { work_order_id: "order-1".to_string(), assignees_json: some("[\"dana\"]") },
            some(role),
            None,
            &mut events,
            &mut log,
        );
        assert_eq!(outcome, Err(Error::Forbidden(Denial::AssignNeedsAdminOrLead)));
        assert_eq!(events, vec![event("e1", Some("order-1"), "[]")]);
        assert!(log.entries.is_empty());
    }
}

#[test]
fn assigning_carries_the_list_to_the_calendar_and_the_log() {
    let mut events = vec![
        event("e1", Some("order-1"), "[]"),
        event("e2", Some("order-2"), "[\"eli\"]"),
        event("e3", None, "[\"eli\"]"),
        event("e4", Some("order-1"), "[\"eli\"]"),
    ];
    let mut log = AuditLog::new();
    let order = update_work_order_assignees(
        Some(stored(WorkOrderStatus::Draft, 1)),
        WorkOrderAssignmentInput { work_order_id: "order-1".to_string(), assignees_json: some("[\"dana\"]") },
        some("Lead"),
        some("lee"),
        &mut events,
        &mut log,
    )
    .unwrap();
    assert_eq!(order.assignees_json, some("[\"dana\"]"));
    assert_eq!(order.status, WorkOrderStatus::Draft);
    assert_eq!(
        events,
        vec![
            event("e1", Some("order-1"), "[\"dana\"]"),
            event("e2", Some("order-2"), "[\"eli\"]"),
            event("e3", None, "[\"eli\"]"),
            event("e4", Some("order-1"), "[\"dana\"]"),
        ]
    );
    assert_eq!(log.entries.len(), 2);
    assert_eq!(log.entries[0].event, "update_work_order_assignees");
    assert_eq!(log.entries[0].role, "lead");
    assert_eq!(log.entries[0].actor, "lee");
    let change = log.entries[1].change.clone().unwrap();
    assert_eq!(change.field, "assignees_json");
    assert_eq!(change.old_value, some("[]"));
    assert_eq!(change.new_value, some("[\"dana\"]"));
}

#[test]
fn assigning_nobody_stores_nothing_and_shows_an_empty_list_in_the_calendar() {
    let mut events = vec![event("e1", Some("order-1"), "[\"eli\"]")];
    let mut log = AuditLog::new();
    let order = update_work_order_assignees(
        Some(stored(WorkOrderStatus::Draft, 1)),
        WorkOrderAssignmentInput { work_order_id: "order-1".to_string(), assignees_json: None },
        None,
        None,
        &mut events,
        &mut log,
    )
    .unwrap();
    assert_eq!(order.assignees_json, None);
    assert_eq!(events, vec![event("e1", Some("order-1"), "[]")]);
    assert_eq!(log.entries.len(), 2);
}

#[test]
fn assigning_the_same_list_again_leaves_only_the_event() {
    let mut events: Vec<DeliveryEvent> = Vec::new();
    let mut log = AuditLog::new();
    update_work_order_assignees(
        Some(stored(WorkOrderStatus::Draft, 1)),
        WorkOrderAssignmentInput { work_order_id: "order-1".to_string(), assignees_json: some("[]") },
        None,
        None,
        &mut events,
        &mut log,
    )
    .unwrap();
    assert_eq!(log.entries.len(), 1);
}

#[test]
fn assigning_to_a_missing_order_is_not_found() {
    let mut events = vec![event("e1", Some("order-1"), "[\"eli\"]")];
    let mut log = AuditLog::new();
    let outcome = update_work_order_assignees(
        None,
        WorkOrderAssignmentInput { work_order_id: "order-1".to_string(), assignees_json: some("[]") },
        some("admin"),
        None,
        &mut events,
        &mut log,
    );
    assert_eq!(outcome, Err(Error::NotFound(Missing::WorkOrder)));
    assert_eq!(events, vec![event("e1", Some("order-1"), "[\"eli\"]")]);
    assert_eq!(log.entries.len(), 1);
}

#[test]
fn mirroring_touches_only_the_entries_of_the_order() {
    let mut events = vec![event("e1", Some("a"), "x"), event("e2", Some("b"), "y")];
    mirror_assignees(&mut events, "b", "z");
    assert_eq!(events, vec![event("e1", Some("a"), "x"), event("e2", Some("b"), "z")]);
}

#[test]
fn every_status_reached_is_one_of_the_seven_and_allowed() {
    let names = ["draft", "scheduled", "in_progress", "completed", "cancelled", "delivered", "issue", "picked_up"];
    let roles = ["admin", "lead", "staff", "driver", "volunteer"];
    for role in roles {
        for driver in [false, true] {
            for name in names {
                for mileage in [None, Some(5)] {
                    let mut items = wood(100, 50);
                    let mut log = AuditLog::new();
                    let outcome = update_work_order_status(
                        Some(stored(WorkOrderStatus::Scheduled, 1)),
                        &status_input(Some(name), mileage, Some(driver)),
                        some(role),
                        None,
                        &mut items,
                        &mut log,
                    );
                    if let Ok(updated) = outcome {
                        let status = updated.order.status;
                        assert_eq!(status.as_str(), name);
                        assert!(!(role == "volunteer" && !driver));
                        assert!(!driver || status.allowed_for_driver());
                        assert!(!status.requires_mileage() || mileage.is_some());
                    } else {
                        assert_eq!(items, wood(100, 50));
                    }
                }
            }
        }
    }
}
