use firewood_bank::audit::AuditLog;
use firewood_bank::error::{Denial, Error, Invalid, Missing};
use firewood_bank::inventory::{update_inventory_item, InventoryItem, InventoryUpdateInput};
use firewood_bank::records::{ChangeRequestStatus, DeliveryEventType, SyncRecord};
use firewood_bank::role::{can_assign, can_create_orders, can_see_protected, is_limited_to_assigned, normalize_role, UserRole};
use firewood_bank::status::WorkOrderStatus;
use firewood_bank::quantity::{opt_quantity_text, quantity_text, PER_UNIT};
use firewood_bank::text::{
    ascii_lower_char, chars_of, clone_opt, join_texts, contains_ignore_ascii_case, eq_ignore_ascii_case, number_text,
    opt_eq, str_eq, text_sorts_before,
};

fn some(text: &str) -> Option<String> {
    Some(text.to_string())
}

#[test]
fn statuses_are_parsed_whatever_their_case() {
    let all = [
        (WorkOrderStatus::Draft, "draft"),
        (WorkOrderStatus::Scheduled, "scheduled"),
        (WorkOrderStatus::InProgress, "in_progress"),
        (WorkOrderStatus::Completed, "completed"),
        (WorkOrderStatus::Cancelled, "cancelled"),
        (WorkOrderStatus::Delivered, "delivered"),
        (WorkOrderStatus::Issue, "issue"),
    ];
    for (status, name) in all {
        assert_eq!(status.as_str(), name);
        assert_eq!(WorkOrderStatus::from_lowercase(name), Some(status));
        assert_eq!(WorkOrderStatus::parse(name), Some(status));
        assert_eq!(WorkOrderStatus::parse(&name.to_uppercase()), Some(status));
        assert_eq!(WorkOrderStatus::from_lowercase(&name.to_uppercase()), None);
    }
    assert_eq!(WorkOrderStatus::parse("In_Progress"), Some(WorkOrderStatus::InProgress));
    assert_eq!(WorkOrderStatus::parse("in progress"), None);
    assert_eq!(WorkOrderStatus::parse("picked_up"), None);
    assert_eq!(WorkOrderStatus::parse(""), None);
    assert_eq!(WorkOrderStatus::parse(" draft"), None);
}

#[test]
fn statuses_know_what_they_mean() {
    let all = [
        WorkOrderStatus::Draft,
        WorkOrderStatus::Scheduled,
        WorkOrderStatus::InProgress,
        WorkOrderStatus::Completed,
        WorkOrderStatus::Cancelled,
        WorkOrderStatus::Delivered,
        WorkOrderStatus::Issue,
    ];
    let reserving: Vec<_> = all.into_iter().filter(|s| s.is_reserving()).collect();
    assert_eq!(reserving, vec![WorkOrderStatus::Scheduled, WorkOrderStatus::InProgress]);
    let mileage: Vec<_> = all.into_iter().filter(|s| s.requires_mileage()).collect();
    assert_eq!(mileage, vec![WorkOrderStatus::Completed, WorkOrderStatus::Delivered]);
    let driver: Vec<_> = all.into_iter().filter(|s| s.allowed_for_driver()).collect();
    assert_eq!(driver, vec![WorkOrderStatus::InProgress, WorkOrderStatus::Completed, WorkOrderStatus::Delivered, WorkOrderStatus::Issue]);
}

#[test]
fn roles_are_parsed_whatever_their_case() {
    let all = [
        (UserRole::Admin, "admin"),
        (UserRole::Lead, "lead"),
        (UserRole::Staff, "staff"),
        (UserRole::Driver, "driver"),
        (UserRole::Volunteer, "volunteer"),
    ];
    for (role, name) in all {
        assert_eq!(role.as_str(), name);
        assert_eq!(UserRole::from_lowercase(name), Some(role));
        assert_eq!(UserRole::parse(&name.to_uppercase()), Some(role));
        assert_eq!(UserRole::from_lowercase(&name.to_uppercase()), None);
    }
    assert_eq!(UserRole::parse("unknown"), None);
    assert_eq!(UserRole::parse(""), None);
    assert_eq!(normalize_role(&None), "admin");
    assert_eq!(normalize_role(&some("LeAd")), "lead");
    assert_eq!(normalize_role(&some("ÄRZTIN")), "ärztin");
}

#[test]
fn roles_know_what_they_may_do() {
    let all = [Some(UserRole::Admin), Some(UserRole::Lead), Some(UserRole::Staff), Some(UserRole::Driver), Some(UserRole::Volunteer), None];
    let creators: Vec<_> = all.into_iter().filter(|r| can_create_orders(*r)).collect();
    assert_eq!(creators, vec![Some(UserRole::Admin), Some(UserRole::Staff)]);
    let assigners: Vec<_> = all.into_iter().filter(|r| can_assign(*r)).collect();
    assert_eq!(assigners, vec![Some(UserRole::Admin), Some(UserRole::Lead)]);
    let limited: Vec<_> = all.into_iter().filter(|r| is_limited_to_assigned(*r, false)).collect();
    assert_eq!(limited, vec![Some(UserRole::Volunteer)]);
    assert!(all.into_iter().all(|r| is_limited_to_assigned(r, true)));
    let cleared: Vec<_> = all.into_iter().filter(|r| can_see_protected(*r, true)).collect();
    assert_eq!(cleared, vec![Some(UserRole::Admin), Some(UserRole::Lead)]);
    let cleared: Vec<_> = all.into_iter().filter(|r| can_see_protected(*r, false)).collect();
    assert_eq!(cleared, vec![Some(UserRole::Admin)]);
}

#[test]
fn every_error_has_its_message() {
    assert_eq!(Error::Forbidden(Denial::CreateNeedsStaffOrAdmin).message(), "Only staff or admin may create work orders");
    assert_eq!(Error::Forbidden(Denial::AssignNeedsAdminOrLead).message(), "Only admins or leads can assign drivers/helpers");
    assert_eq!(Error::Forbidden(Denial::VolunteerUpdate).message(), "Volunteers cannot update status/mileage");
    assert_eq!(Error::Forbidden(Denial::DriverStatus).message(), "Drivers can only mark in_progress, delivered, completed or issue");
    assert_eq!(Error::Validation(Invalid::MileageMissing).message(), "Mileage is required to mark completed");
    assert_eq!(Error::Validation(Invalid::UnknownStatus).message(), "Unknown work order status");
    assert_eq!(Error::Validation(Invalid::NameMissing).message(), "Both 'first_name' and 'last_name' are required.");
    assert_eq!(Error::Validation(Invalid::NameEmpty).message(), "Name cannot be empty.");
    assert_eq!(Error::Validation(Invalid::NameAtOtherAddress(3)).message(), "Name already exists at a different address");
    assert_eq!(
        Error::Validation(Invalid::QuantityBelowReserved).message(),
        "Quantity on hand cannot be negative or below the reserved quantity"
    );
    assert_eq!(Error::NotFound(Missing::WorkOrder).message(), "Work order not found or has been deleted");
    assert_eq!(Error::NotFound(Missing::User).message(), "User not found");
    assert_eq!(Error::Forbidden(Denial::ResetNeedsAdminOrLead).message(), "Only admins or leads can reset passwords");
    assert_eq!(Error::Forbidden(Denial::CreateUserNeedsAdminOrLead).message(), "Only admins or leads can create users");
    assert_eq!(Error::Forbidden(Denial::UpdateUserNeedsAdminOrLead).message(), "Only admins or leads can update users");
    assert_eq!(Error::Forbidden(Denial::BadCredentials).message(), "Invalid username or password");
    assert_eq!(Error::Forbidden(Denial::WrongPassword).message(), "Current password is incorrect");
    assert_eq!(Error::Validation(Invalid::CredentialsMissing).message(), "Username and password are required");
    assert_eq!(Error::Validation(Invalid::PasswordChangeIncomplete).message(), "Username, current password, and new password are required");
    assert_eq!(Error::Validation(Invalid::NewPasswordMissing).message(), "New password is required");
    assert_eq!(Error::Validation(Invalid::PasswordMissing).message(), "Password is required");
    assert_eq!(Error::Validation(Invalid::FullNameMissing).message(), "Full name (first and last) is required");
    assert_eq!(Error::Validation(Invalid::UsernameTaken).message(), "Username already exists");
    assert_eq!(Error::Validation(Invalid::NoFreeUsername).message(), "Could not generate unique username");
    assert_eq!(Error::Validation(Invalid::DateFormat).message(), "Invalid date format");
    assert_eq!(Error::InsufficientInventory.message(), "Insufficient inventory for this work order status change.");
    assert_eq!(Error::NoTrackedStock.message(), "No wood inventory item found to adjust (add a wood inventory item).");
    assert_eq!(Error::Store.message(), "The entity store failed");
}

#[test]
fn numbers_are_written_in_decimal() {
    assert_eq!(number_text(0), "0");
    assert_eq!(number_text(7), "7");
    assert_eq!(number_text(10), "10");
    assert_eq!(number_text(1205), "1205");
    assert_eq!(number_text(-1), "-1");
    assert_eq!(number_text(-980), "-980");
    assert_eq!(number_text(i64::MAX), "9223372036854775807");
    assert_eq!(number_text(i64::MIN), "-9223372036854775808");
    for n in [-1000i64, -99, -10, 9, 99, 100, 101, 123456789] {
        assert_eq!(number_text(n), n.to_string());
    }
}

#[test]
fn texts_are_searched_and_compared() {
    assert!(contains_ignore_ascii_case("Half CORD", "cord"));
    assert!(contains_ignore_ascii_case("cord", "CORD"));
    assert!(contains_ignore_ascii_case("xcordx", "cord"));
    assert!(contains_ignore_ascii_case("anything", ""));
    assert!(contains_ignore_ascii_case("", ""));
    assert!(!contains_ignore_ascii_case("cor", "cord"));
    assert!(!contains_ignore_ascii_case("", "cord"));
    assert!(!contains_ignore_ascii_case("c ord", "cord"));
    assert!(!contains_ignore_ascii_case("ÇORD", "çord"));
    assert!(eq_ignore_ascii_case("Salida", "SALIDA"));
    assert!(eq_ignore_ascii_case("", ""));
    assert!(!eq_ignore_ascii_case("Salida", "Salidas"));
    assert!(!eq_ignore_ascii_case("É", "é"));
    assert_eq!(ascii_lower_char('A'), 'a');
    assert_eq!(ascii_lower_char('Z'), 'z');
    assert_eq!(ascii_lower_char('a'), 'a');
    assert_eq!(ascii_lower_char('['), '[');
    assert_eq!(ascii_lower_char('@'), '@');
    assert_eq!(ascii_lower_char('É'), 'É');
    assert_eq!(chars_of("aé€"), vec!['a', 'é', '€']);
    assert_eq!(join_texts("ab", "cd"), "abcd");
    assert_eq!(clone_opt(&some("x")), some("x"));
    assert_eq!(clone_opt(&None), None);
    assert!(opt_eq(&None, &None));
    assert!(opt_eq(&some("a"), &some("a")));
    assert!(!opt_eq(&some("a"), &None));
    assert!(!opt_eq(&some("a"), &some("b")));
}

#[test]
fn texts_sort_like_their_characters() {
    assert!(text_sorts_before("2024-12-31 23:59:59", "2025-01-01 00:00:00"));
    assert!(!text_sorts_before("2025-01-01 00:00:00", "2024-12-31 23:59:59"));
    assert!(!text_sorts_before("same", "same"));
    assert!(text_sorts_before("", "a"));
    assert!(!text_sorts_before("a", ""));
    assert!(!text_sorts_before("", ""));
    assert!(text_sorts_before("ab", "abc"));
    assert!(text_sorts_before("Z", "a"));
    assert!(text_sorts_before("z", "é"));
    for (a, b) in [("a", "b"), ("10", "9"), ("é", "€"), ("abc", "abd")] {
        assert_eq!(text_sorts_before(a, b), a < b);
        assert_eq!(text_sorts_before(b, a), b < a);
    }
}

fn stock() -> InventoryItem {
    InventoryItem {
        id: "w1".to_string(),
        name: "Firewood".to_string(),
        category: some("wood"),
        unit: "cord".to_string(),
        quantity_on_hand: 10,
        reserved_quantity: 4,
        reorder_threshold: 2,
        reorder_amount: None,
        notes: None,
        created_at: "2025-01-01 00:00:00".to_string(),
        is_deleted: false,
    }
}

#[test]
fn an_edit_of_the_inventory_is_logged_field_by_field() {
    let mut log = AuditLog::new();
    let edit = InventoryUpdateInput {
        id: "w1".to_string(),
        name: "Firewood".to_string(),
        category: None,
        quantity_on_hand: 12_500,
        unit: "cords".to_string(),
        reorder_threshold: 2_000,
        reorder_amount: Some(5_000),
        notes: some("restocked"),
    };
    let mut record = stock();
    record.quantity_on_hand = 10_000;
    record.reserved_quantity = 4_000;
    record.reorder_threshold = 2_000;
    let edited = update_inventory_item(Some(record.clone()), edit, some("staff"), some("sam"), &mut log).unwrap().unwrap();
    let mut expected = record;
    expected.category = None;
    expected.quantity_on_hand = 12_500;
    expected.unit = "cords".to_string();
    expected.reorder_amount = Some(5_000);
    expected.notes = some("restocked");
    assert_eq!(edited, expected);
    assert_eq!(log.entries[0].event, "update_inventory_item");
    assert_eq!(log.entries[0].role, "staff");
    assert_eq!(log.entries[0].actor, "sam");
    let changes: Vec<_> = log.changes_for("inventory_items", "w1").into_iter().map(|v| (v.field, v.old_value, v.new_value)).collect();
    assert_eq!(
        changes,
        vec![
            ("category".to_string(), some("wood"), None),
            ("quantity_on_hand".to_string(), some("10"), some("12.5")),
            ("unit".to_string(), some("cord"), some("cords")),
            ("reorder_amount".to_string(), None, some("5")),
            ("notes".to_string(), None, some("restocked")),
        ]
    );
}

#[test]
fn an_edit_of_a_missing_record_leaves_only_the_event() {
    let mut log = AuditLog::new();
    let edit = InventoryUpdateInput {
        id: "w9".to_string(),
        name: "x".to_string(),
        category: None,
        quantity_on_hand: 1,
        unit: "y".to_string(),
        reorder_threshold: 0,
        reorder_amount: None,
        notes: None,
    };
    assert_eq!(update_inventory_item(None, edit, None, None, &mut log), Ok(None));
    assert_eq!(log.entries.len(), 1);
    assert_eq!(log.entries[0].role, "unknown");
    assert_eq!(log.entries[0].actor, "unknown");
}

fn edit_to(quantity: i64) -> InventoryUpdateInput {
    InventoryUpdateInput {
        id: "w1".to_string(),
        name: "Firewood".to_string(),
        category: some("wood"),
        quantity_on_hand: quantity,
        unit: "cord".to_string(),
        reorder_threshold: 2,
        reorder_amount: None,
        notes: some("counted"),
    }
}

#[test]
fn an_edit_may_not_leave_less_on_hand_than_is_reserved() {
    for quantity in [3i64, 0, -1, i64::MIN] {
        let mut log = AuditLog::new();
        let outcome = update_inventory_item(Some(stock()), edit_to(quantity), some("staff"), some("sam"), &mut log);
        assert_eq!(outcome, Err(Error::Validation(Invalid::QuantityBelowReserved)));
        assert_eq!(log.entries.len(), 1);
        assert!(log.entries[0].change.is_none());
    }
    for quantity in [4i64, 5, i64::MAX] {
        let mut log = AuditLog::new();
        let edited = update_inventory_item(Some(stock()), edit_to(quantity), None, None, &mut log).unwrap().unwrap();
        assert_eq!(edited.quantity_on_hand, quantity);
        assert_eq!(edited.reserved_quantity, 4);
        assert!(0 <= edited.reserved_quantity && edited.reserved_quantity <= edited.quantity_on_hand);
    }
    let mut empty = stock();
    empty.reserved_quantity = 0;
    let mut log = AuditLog::new();
    assert!(update_inventory_item(Some(empty.clone()), edit_to(0), None, None, &mut log).is_ok());
    assert_eq!(
        update_inventory_item(Some(empty), edit_to(-1), None, None, &mut log),
        Err(Error::Validation(Invalid::QuantityBelowReserved))
    );
}

#[test]
fn kinds_and_states_have_their_stored_names() {
    assert_eq!(DeliveryEventType::Delivery.as_str(), "delivery");
    assert_eq!(DeliveryEventType::Meeting.as_str(), "meeting");
    assert_eq!(DeliveryEventType::Workday.as_str(), "workday");
    assert_eq!(ChangeRequestStatus::Open.as_str(), "open");
    assert_eq!(ChangeRequestStatus::InReview.as_str(), "in_review");
    assert_eq!(ChangeRequestStatus::Approved.as_str(), "approved");
    assert_eq!(ChangeRequestStatus::Rejected.as_str(), "rejected");
    let record = SyncRecord {
        table_name: "clients".to_string(),
        record_id: "c1".to_string(),
        updated_at: some("2025-10-28 10:00:00"),
        last_synced_at: None,
        version: 3,
    };
    assert_eq!(record.clone(), record);
}

#[test]
fn texts_are_equal_when_their_characters_are() {
    assert!(str_eq("", ""));
    assert!(str_eq("wood", "wood"));
    assert!(str_eq("é€", "é€"));
    assert!(!str_eq("wood", "Wood"));
    assert!(!str_eq("wood", "woods"));
    assert!(!str_eq("woods", "wood"));
    assert!(!str_eq("", "a"));
    assert!(!str_eq("e\u{301}", "é"));
}

#[test]
fn quantities_are_written_as_decimal_numbers() {
    assert_eq!(PER_UNIT, 1000);
    assert_eq!(quantity_text(0), "0");
    assert_eq!(quantity_text(4_000), "4");
    assert_eq!(quantity_text(4_500), "4.5");
    assert_eq!(quantity_text(12_000), "12");
    assert_eq!(quantity_text(1_010), "1.01");
    assert_eq!(quantity_text(125), "0.125");
    assert_eq!(quantity_text(50), "0.05");
    assert_eq!(quantity_text(1), "0.001");
    assert_eq!(quantity_text(-50), "-0.05");
    assert_eq!(quantity_text(-4_000), "-4");
    assert_eq!(quantity_text(-1_234_567), "-1234.567");
    assert_eq!(quantity_text(i64::MAX), "9223372036854775.807");
    assert_eq!(quantity_text(i64::MIN), "-9223372036854775.808");
    assert_eq!(opt_quantity_text(Some(7_250)), some("7.25"));
    assert_eq!(opt_quantity_text(None), None);
}

#[test]
fn a_quantity_reads_as_the_decimal_number_it_stands_for() {
    for quantity in -2_500..2_500i64 {
        let number = quantity as f64 / 1000.0;
        assert_eq!(quantity_text(quantity), number.to_string());
    }
    for quantity in [123_456_789i64, 1_000_000, 999_999, 1_000_001, 42_100] {
        let number = quantity as f64 / 1000.0;
        assert_eq!(quantity_text(quantity), number.to_string());
    }
}
