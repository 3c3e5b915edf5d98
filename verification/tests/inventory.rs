use firewood_bank::error::Error;
use firewood_bank::inventory::{adjust_inventory_for_transition, find_tracked_stock, InventoryItem};
use firewood_bank::status::WorkOrderStatus;

fn item(id: &str, name: &str, unit: &str, on_hand: i64, reserved: i64, created_at: &str) -> InventoryItem {
    InventoryItem {
        id: id.to_string(),
        name: name.to_string(),
        category: None,
        unit: unit.to_string(),
        quantity_on_hand: on_hand,
        reserved_quantity: reserved,
        reorder_threshold: 0,
        reorder_amount: None,
        notes: None,
        created_at: created_at.to_string(),
        is_deleted: false,
    }
}

fn wood(on_hand: i64, reserved: i64) -> Vec<InventoryItem> {
    vec![item("w1", "Split firewood", "cord", on_hand, reserved, "2025-01-01 08:00:00")]
}

const ALL: [WorkOrderStatus; 7] = [
    WorkOrderStatus::Draft,
    WorkOrderStatus::Scheduled,
    WorkOrderStatus::InProgress,
    WorkOrderStatus::Completed,
    WorkOrderStatus::Cancelled,
    WorkOrderStatus::Delivered,
    WorkOrderStatus::Issue,
];

#[test]
fn reserving_raises_the_reserved_quantity_only() {
    let mut items = wood(10, 0);
    let place = adjust_inventory_for_transition(&mut items, WorkOrderStatus::Draft, WorkOrderStatus::Scheduled, 4);
    assert_eq!(place, Ok(Some(0)));
    assert_eq!(items[0].quantity_on_hand, 10);
    assert_eq!(items[0].reserved_quantity, 4);
}

#[test]
fn completing_releases_and_consumes() {
    let mut items = wood(10, 4);
    let place = adjust_inventory_for_transition(&mut items, WorkOrderStatus::Scheduled, WorkOrderStatus::Completed, 4);
    assert_eq!(place, Ok(Some(0)));
    assert_eq!(items[0].quantity_on_hand, 6);
    assert_eq!(items[0].reserved_quantity, 0);
}

#[test]
fn cancelling_releases_without_consuming() {
    let mut items = wood(10, 4);
    let place = adjust_inventory_for_transition(&mut items, WorkOrderStatus::InProgress, WorkOrderStatus::Cancelled, 4);
    assert_eq!(place, Ok(Some(0)));
    assert_eq!(items[0].quantity_on_hand, 10);
    assert_eq!(items[0].reserved_quantity, 0);
}

#[test]
fn moving_between_reserving_statuses_changes_nothing() {
    let mut items = wood(10, 4);
    let before = items.clone();
    let place = adjust_inventory_for_transition(&mut items, WorkOrderStatus::Scheduled, WorkOrderStatus::InProgress, 4);
    assert_eq!(place, Ok(Some(0)));
    assert_eq!(items, before);
}

#[test]
fn a_quantity_of_zero_or_less_is_a_no_op_even_without_stock() {
    let mut none: Vec<InventoryItem> = Vec::new();
    assert_eq!(adjust_inventory_for_transition(&mut none, WorkOrderStatus::Draft, WorkOrderStatus::Scheduled, 0), Ok(None));
    let mut items = wood(10, 0);
    let before = items.clone();
    assert_eq!(adjust_inventory_for_transition(&mut items, WorkOrderStatus::Draft, WorkOrderStatus::Scheduled, -3), Ok(None));
    assert_eq!(items, before);
}

#[test]
fn reserving_more_than_is_available_fails_and_changes_nothing() {
    let mut items = wood(3, 0);
    let before = items.clone();
    let outcome = adjust_inventory_for_transition(&mut items, WorkOrderStatus::Draft, WorkOrderStatus::Scheduled, 5);
    assert_eq!(outcome, Err(Error::InsufficientInventory));
    assert_eq!(items, before);
}

#[test]
fn reserving_exactly_what_is_available_succeeds() {
    let mut items = wood(10, 6);
    let outcome = adjust_inventory_for_transition(&mut items, WorkOrderStatus::Draft, WorkOrderStatus::InProgress, 4);
    assert_eq!(outcome, Ok(Some(0)));
    assert_eq!(items[0].reserved_quantity, 10);
    assert_eq!(items[0].quantity_on_hand, 10);
    let mut items = wood(10, 6);
    let outcome = adjust_inventory_for_transition(&mut items, WorkOrderStatus::Draft, WorkOrderStatus::InProgress, 5);
    assert_eq!(outcome, Err(Error::InsufficientInventory));
}

#[test]
fn without_a_wood_record_the_ledger_fails() {
    let mut items = vec![item("c1", "Chainsaw", "pcs", 2, 0, "2025-01-01 08:00:00")];
    let before = items.clone();
    let outcome = adjust_inventory_for_transition(&mut items, WorkOrderStatus::Draft, WorkOrderStatus::Scheduled, 1);
    assert_eq!(outcome, Err(Error::NoTrackedStock));
    assert_eq!(items, before);
    let mut deleted = wood(10, 0);
    deleted[0].is_deleted = true;
    let outcome = adjust_inventory_for_transition(&mut deleted, WorkOrderStatus::Draft, WorkOrderStatus::Scheduled, 1);
    assert_eq!(outcome, Err(Error::NoTrackedStock));
}

#[test]
fn the_tracked_record_is_the_oldest_wood_record() {
    let items = vec![
        item("a", "Bar oil", "gal", 5, 0, "2024-01-01 00:00:00"),
        item("b", "Hardwood", "load", 5, 0, "2025-03-01 00:00:00"),
        item("c", "Rounds", "Cords", 5, 0, "2025-02-01 00:00:00"),
        item("d", "WOOD chips", "bag", 5, 0, "2025-02-01 00:00:00"),
    ];
    assert_eq!(find_tracked_stock(&items), Some(2));
    assert_eq!(find_tracked_stock(&items[..2].to_vec()), Some(1));
    assert_eq!(find_tracked_stock(&items[..1].to_vec()), None);
    assert_eq!(find_tracked_stock(&Vec::new()), None);
}

#[test]
fn the_name_and_unit_are_matched_whatever_their_case() {
    assert!(item("a", "FireWOOD", "pcs", 1, 0, "x").is_wood_stock());
    assert!(item("a", "Logs", "half CORD", 1, 0, "x").is_wood_stock());
    assert!(!item("a", "Logs", "cor d", 1, 0, "x").is_wood_stock());
    assert!(!item("a", "woo", "cor", 1, 0, "x").is_wood_stock());
}

#[test]
fn only_the_tracked_record_changes() {
    let mut items = vec![
        item("a", "Bar oil", "gal", 5, 0, "2024-01-01 00:00:00"),
        item("b", "Firewood", "cord", 10, 0, "2025-01-01 00:00:00"),
        item("c", "Kindling wood", "bag", 7, 1, "2025-06-01 00:00:00"),
    ];
    let before = items.clone();
    let outcome = adjust_inventory_for_transition(&mut items, WorkOrderStatus::Draft, WorkOrderStatus::Scheduled, 2);
    assert_eq!(outcome, Ok(Some(1)));
    assert_eq!(items[0], before[0]);
    assert_eq!(items[2], before[2]);
    assert_eq!(items[1].reserved_quantity, 2);
    assert_eq!(items[1].id, "b");
    assert_eq!(items[1].name, "Firewood");
}

#[test]
fn levels_are_clamped_at_zero() {
    let mut items = wood(3, 2);
    let outcome = adjust_inventory_for_transition(&mut items, WorkOrderStatus::Scheduled, WorkOrderStatus::Completed, 5);
    assert_eq!(outcome, Ok(Some(0)));
    assert_eq!(items[0].quantity_on_hand, 0);
    assert_eq!(items[0].reserved_quantity, 0);
}

#[test]
fn extreme_quantities_do_not_overflow() {
    let mut items = wood(i64::MAX, 0);
    let outcome = adjust_inventory_for_transition(&mut items, WorkOrderStatus::Draft, WorkOrderStatus::Scheduled, i64::MAX);
    assert_eq!(outcome, Ok(Some(0)));
    assert_eq!(items[0].reserved_quantity, i64::MAX);
    let mut items = vec![item("w", "wood", "cord", i64::MAX, i64::MIN, "t")];
    let outcome = adjust_inventory_for_transition(&mut items, WorkOrderStatus::Scheduled, WorkOrderStatus::Completed, i64::MAX);
    assert_eq!(outcome, Ok(Some(0)));
    assert_eq!(items[0].reserved_quantity, 0);
    assert_eq!(items[0].quantity_on_hand, 0);
}

#[test]
fn the_invariant_holds_after_every_accepted_change_but_unreserved_completion() {
    for &previous in ALL.iter() {
        for &next in ALL.iter() {
            for on_hand in 0..6i64 {
                for reserved in 0..=on_hand {
                    for quantity in 1..8i64 {
                        let mut items = wood(on_hand, reserved);
                        let outcome = adjust_inventory_for_transition(&mut items, previous, next, quantity);
                        let takes_reserved = !previous.is_reserving()
                            && previous != WorkOrderStatus::Completed
                            && next == WorkOrderStatus::Completed
                            && reserved > (on_hand - quantity).max(0);
                        if outcome.is_ok() && !takes_reserved {
                            assert!(0 <= items[0].reserved_quantity);
                            assert!(items[0].reserved_quantity <= items[0].quantity_on_hand);
                        }
                        if outcome.is_err() {
                            assert_eq!(items, wood(on_hand, reserved));
                        }
                    }
                }
            }
        }
    }
}

#[test]
fn completing_an_order_that_reserved_nothing_can_break_the_invariant() {
    let mut items = wood(10, 8);
    let outcome = adjust_inventory_for_transition(&mut items, WorkOrderStatus::Draft, WorkOrderStatus::Completed, 4);
    assert_eq!(outcome, Ok(Some(0)));
    assert_eq!(items[0].quantity_on_hand, 6);
    assert_eq!(items[0].reserved_quantity, 8);
}

#[test]
fn a_change_to_the_same_status_changes_nothing() {
    for &status in ALL.iter() {
        for quantity in -1..12i64 {
            let mut items = wood(10, 4);
            let outcome = adjust_inventory_for_transition(&mut items, status, status, quantity);
            assert!(outcome.is_ok());
            assert_eq!(items, wood(10, 4));
        }
    }
}

#[test]
fn an_order_that_stays_completed_consumes_nothing_more() {
    let mut items = wood(10, 0);
    let outcome = adjust_inventory_for_transition(&mut items, WorkOrderStatus::Completed, WorkOrderStatus::Completed, 4);
    assert_eq!(outcome, Ok(Some(0)));
    assert_eq!((items[0].quantity_on_hand, items[0].reserved_quantity), (10, 0));
    let record = item("w", "wood", "cord", 10, 0, "t");
    assert_eq!(record.levels_after(WorkOrderStatus::Completed, WorkOrderStatus::Completed, 4), Ok((10, 0)));
    assert_eq!(record.levels_after(WorkOrderStatus::Delivered, WorkOrderStatus::Completed, 4), Ok((6, 0)));
}

#[test]
fn the_clamp_is_not_reached_when_orders_release_what_they_reserved() {
    let mut items = wood(10, 0);
    for quantity in [4i64, 3, 3] {
        assert!(adjust_inventory_for_transition(&mut items, WorkOrderStatus::Draft, WorkOrderStatus::Scheduled, quantity).is_ok());
    }
    assert_eq!((items[0].quantity_on_hand, items[0].reserved_quantity), (10, 10));
    assert!(adjust_inventory_for_transition(&mut items, WorkOrderStatus::Scheduled, WorkOrderStatus::Completed, 4).is_ok());
    assert_eq!((items[0].quantity_on_hand, items[0].reserved_quantity), (6, 6));
    assert!(adjust_inventory_for_transition(&mut items, WorkOrderStatus::Scheduled, WorkOrderStatus::Cancelled, 3).is_ok());
    assert_eq!((items[0].quantity_on_hand, items[0].reserved_quantity), (6, 3));
    assert!(adjust_inventory_for_transition(&mut items, WorkOrderStatus::Scheduled, WorkOrderStatus::InProgress, 3).is_ok());
    assert!(adjust_inventory_for_transition(&mut items, WorkOrderStatus::InProgress, WorkOrderStatus::Completed, 3).is_ok());
    assert_eq!((items[0].quantity_on_hand, items[0].reserved_quantity), (3, 0));
}

#[test]
fn levels_after_gives_on_hand_and_reserved() {
    let record = item("w", "wood", "cord", 10, 4, "t");
    assert_eq!(record.levels_after(WorkOrderStatus::Draft, WorkOrderStatus::Scheduled, 6), Ok((10, 10)));
    assert_eq!(record.levels_after(WorkOrderStatus::Draft, WorkOrderStatus::Scheduled, 7), Err(Error::InsufficientInventory));
    assert_eq!(record.levels_after(WorkOrderStatus::Scheduled, WorkOrderStatus::Completed, 3), Ok((7, 1)));
    assert_eq!(record.levels_after(WorkOrderStatus::Draft, WorkOrderStatus::Completed, 3), Ok((7, 4)));
    assert_eq!(record.levels_after(WorkOrderStatus::Draft, WorkOrderStatus::Scheduled, 0), Ok((10, 4)));
}
