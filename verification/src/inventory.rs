//! The inventory ledger: what a change of a work order's status does to the
//! one stock of wood that the system tracks.
//!
//! Quantities are whole thousandths of a cord (see the module `quantity`).

use vstd::prelude::*;
use crate::audit::{change_rows, event_row, name_or_unknown, noted_name, value_rows, AuditLog,
    AuditRow, FieldValue, ValueRow};
use crate::error::{Error, Invalid};
use crate::quantity::{decimal_number, opt_decimal_number, opt_quantity_text, quantity_text};
use crate::status::WorkOrderStatus;
use crate::text::{clone_opt, contains_ignore_ascii_case, contains_ignoring_ascii_case,
    lemma_sorts_before_total, lemma_sorts_before_transitive, opt_text, sorts_before,
    text_sorts_before};

verus! {

/// A record of the inventory. At rest `0 <= reserved_quantity <=
/// quantity_on_hand` (see `well_formed`). Only the ledger changes the reserved
/// quantity; an edit of the quantity on hand is refused where it would go
/// below it.
///
/// The ledger keeps the invariant with one exception: an order that is
/// completed without having held a reservation takes its wood from what is on
/// hand, reserved for other orders or not, and can so leave less on hand than
/// is reserved (see `consumes_reserved_wood`).
#[derive(Clone, Debug, PartialEq, Eq)]
pub struct InventoryItem {
    pub id: String,
    pub name: String,
    pub category: Option<String>,
    pub unit: String,
    pub quantity_on_hand: i64,
    pub reserved_quantity: i64,
    pub reorder_threshold: i64,
    pub reorder_amount: Option<i64>,
    pub notes: Option<String>,
    /// When the record was made, as a text that sorts by time.
    pub created_at: String,
    pub is_deleted: bool,
}

/// A negative number becomes zero.
pub open spec fn clamp_at_zero(value: int) -> int {
    if value < 0 {
        0
    } else {
        value
    }
}

/// The change takes the order from a status without a reservation into one
/// with a reservation.
pub open spec fn starts_reservation(previous: WorkOrderStatus, next: WorkOrderStatus) -> bool {
    !previous.reserves() && next.reserves()
}

/// The change takes the order from a status with a reservation into one
/// without.
pub open spec fn ends_reservation(previous: WorkOrderStatus, next: WorkOrderStatus) -> bool {
    previous.reserves() && !next.reserves()
}

/// The reserved quantity that the change asks for, before any clamping.
pub open spec fn raw_reserved_after(
    reserved: int,
    previous: WorkOrderStatus,
    next: WorkOrderStatus,
    quantity: int,
) -> int {
    if starts_reservation(previous, next) {
        reserved + quantity
    } else if ends_reservation(previous, next) {
        reserved - quantity
    } else {
        reserved
    }
}

/// The change completes the order, which consumes its wood. An order that is
/// completed already has had its wood consumed, and stays as it is.
pub open spec fn consumes_wood(previous: WorkOrderStatus, next: WorkOrderStatus) -> bool {
    next == WorkOrderStatus::Completed && previous != WorkOrderStatus::Completed
}

/// The quantity on hand that the change asks for, before any clamping.
pub open spec fn raw_on_hand_after(
    on_hand: int,
    previous: WorkOrderStatus,
    next: WorkOrderStatus,
    quantity: int,
) -> int {
    if consumes_wood(previous, next) {
        on_hand - quantity
    } else {
        on_hand
    }
}

/// The reserved quantity after the change. A quantity of zero or less changes
/// nothing.
pub open spec fn reserved_after(
    reserved: int,
    previous: WorkOrderStatus,
    next: WorkOrderStatus,
    quantity: int,
) -> int {
    if quantity <= 0 {
        reserved
    } else {
        clamp_at_zero(raw_reserved_after(reserved, previous, next, quantity))
    }
}

/// The quantity on hand after the change. A quantity of zero or less changes
/// nothing.
pub open spec fn on_hand_after(
    on_hand: int,
    previous: WorkOrderStatus,
    next: WorkOrderStatus,
    quantity: int,
) -> int {
    if quantity <= 0 {
        on_hand
    } else {
        clamp_at_zero(raw_on_hand_after(on_hand, previous, next, quantity))
    }
}

impl InventoryItem {
    /// The invariant of a record at rest.
    pub open spec fn well_formed(self) -> bool {
        0 <= self.reserved_quantity <= self.quantity_on_hand
    }

    /// What is on hand and not reserved.
    pub open spec fn available(self) -> int {
        self.quantity_on_hand - self.reserved_quantity
    }

    /// Whether the record stands for wood: it is not deleted, and its unit
    /// speaks of cords or its name of wood.
    pub open spec fn tracks_wood(self) -> bool {
        !self.is_deleted && (contains_ignoring_ascii_case(self.unit@, "cord"@)
            || contains_ignoring_ascii_case(self.name@, "wood"@))
    }

    /// The change would reserve more than is available.
    pub open spec fn falls_short(
        self,
        previous: WorkOrderStatus,
        next: WorkOrderStatus,
        quantity: int,
    ) -> bool {
        quantity > 0 && starts_reservation(previous, next) && self.available() < quantity
    }

    /// The record with other levels, and nothing else changed.
    pub open spec fn with_levels(self, on_hand: i64, reserved: i64) -> InventoryItem {
        InventoryItem { quantity_on_hand: on_hand, reserved_quantity: reserved, ..self }
    }

    pub fn is_wood_stock(&self) -> (wood: bool)
        ensures
            wood == self.tracks_wood(),
    {
        !self.is_deleted && (contains_ignore_ascii_case(self.unit.as_str(), "cord")
            || contains_ignore_ascii_case(self.name.as_str(), "wood"))
    }

    /// The levels `(on hand, reserved)` of the record after an order of
    /// `quantity` goes from `previous` to `next`.
    ///
    /// It fails, with `InsufficientInventory`, exactly when the change would
    /// reserve more than is available.
    pub fn levels_after(
        &self,
        previous: WorkOrderStatus,
        next: WorkOrderStatus,
        quantity: i64,
    ) -> (outcome: Result<(i64, i64), Error>)
        ensures
            self.falls_short(previous, next, quantity as int) ==> outcome == Err::<(i64, i64), Error>(
                Error::InsufficientInventory,
            ),
            !self.falls_short(previous, next, quantity as int) ==> outcome is Ok,
            outcome matches Ok(levels) ==> {
                &&& levels.0 == on_hand_after(
                    self.quantity_on_hand as int,
                    previous,
                    next,
                    quantity as int,
                )
                &&& levels.1 == reserved_after(
                    self.reserved_quantity as int,
                    previous,
                    next,
                    quantity as int,
                )
            },
    {
        if quantity <= 0 {
            return Ok((self.quantity_on_hand, self.reserved_quantity));
        }
        let before: bool = previous.is_reserving();
        let after: bool = next.is_reserving();
        let on_hand: i128 = self.quantity_on_hand as i128;
        let mut reserved: i128 = self.reserved_quantity as i128;
        let wanted: i128 = quantity as i128;
        if !before && after {
            if on_hand - reserved < wanted {
                return Err(Error::InsufficientInventory);
            }
            reserved = reserved + wanted;
        } else if before && !after {
            reserved = reserved - wanted;
        }
        let mut left: i128 = on_hand;
        if next == WorkOrderStatus::Completed && previous != WorkOrderStatus::Completed {
            left = left - wanted;
        }
        if reserved < 0 {
            reserved = 0;
        }
        if left < 0 {
            left = 0;
        }
        Ok((left as i64, reserved as i64))
    }
}

/// Whether `items[at]` is the record that the ledger works on: of the records
/// that stand for wood the one made first, and of several made at the same
/// time the one that comes first in `items`.
pub open spec fn is_tracked_stock(items: Seq<InventoryItem>, at: int) -> bool {
    &&& 0 <= at < items.len()
    &&& items[at].tracks_wood()
    &&& forall|j: int|
        0 <= j < items.len() && (#[trigger] items[j]).tracks_wood() ==> {
            &&& !sorts_before(items[j].created_at@, items[at].created_at@)
            &&& j < at ==> sorts_before(items[at].created_at@, items[j].created_at@)
        }
}

/// Whether no record stands for wood.
pub open spec fn no_tracked_stock(items: Seq<InventoryItem>) -> bool {
    forall|j: int| 0 <= j < items.len() ==> !(#[trigger] items[j]).tracks_wood()
}

/// The place of the record that the ledger works on, if there is one.
pub open spec fn tracked_stock(items: Seq<InventoryItem>) -> Option<int> {
    if exists|at: int| is_tracked_stock(items, at) {
        Some(choose|at: int| is_tracked_stock(items, at))
    } else {
        None
    }
}

/// The record after the change of an order's status, which must be one that
/// does not fall short.
pub open spec fn item_after(
    item: InventoryItem,
    previous: WorkOrderStatus,
    next: WorkOrderStatus,
    quantity: int,
) -> InventoryItem {
    item.with_levels(
        on_hand_after(item.quantity_on_hand as int, previous, next, quantity) as i64,
        reserved_after(item.reserved_quantity as int, previous, next, quantity) as i64,
    )
}

/// What the change of an order's status does to the inventory: the inventory
/// afterwards, or the reason why nothing is changed.
pub open spec fn ledger_outcome(
    items: Seq<InventoryItem>,
    previous: WorkOrderStatus,
    next: WorkOrderStatus,
    quantity: int,
) -> Result<Seq<InventoryItem>, Error> {
    if quantity <= 0 {
        Ok(items)
    } else {
        match tracked_stock(items) {
            None => Err(Error::NoTrackedStock),
            Some(at) => if items[at].falls_short(previous, next, quantity) {
                Err(Error::InsufficientInventory)
            } else {
                Ok(items.update(at, item_after(items[at], previous, next, quantity)))
            },
        }
    }
}

/// At most one record is the tracked one.
pub proof fn lemma_tracked_stock_unique(items: Seq<InventoryItem>, a: int, b: int)
    requires
        is_tracked_stock(items, a),
        is_tracked_stock(items, b),
    ensures
        a == b,
{
    if a < b {
        assert(items[a].tracks_wood());
        assert(sorts_before(items[b].created_at@, items[a].created_at@));
    } else if b < a {
        assert(items[b].tracks_wood());
        assert(sorts_before(items[a].created_at@, items[b].created_at@));
    }
}

/// The place of the record that the ledger works on, or `None` where no
/// record stands for wood.
pub fn find_tracked_stock(items: &Vec<InventoryItem>) -> (found: Option<usize>)
    ensures
        match found {
            Some(at) => is_tracked_stock(items@, at as int) && tracked_stock(items@) == Some(
                at as int,
            ),
            None => no_tracked_stock(items@) && tracked_stock(items@) is None,
        },
{
    let mut best: Option<usize> = None;
    let mut i: usize = 0;
    while i < items.len()
        invariant
            i <= items.len(),
            match best {
                Some(at) => is_tracked_stock(items@.take(i as int), at as int),
                None => no_tracked_stock(items@.take(i as int)),
            },
        decreases items.len() - i,
    {
        let ghost seen = items@.take(i as int);
        let ghost more = items@.take(i + 1);
        assert(forall|j: int| 0 <= j < i ==> more[j] == seen[j]);
        assert(more[i as int] == items@[i as int]);
        let candidate: bool = items[i].is_wood_stock();
        match best {
            None => {
                if candidate {
                    best = Some(i);
                    proof {
                        lemma_sorts_before_total(items@[i as int].created_at@, items@[i as int].created_at@);
                        assert forall|j: int|
                            0 <= j < more.len() && (#[trigger] more[j]).tracks_wood() implies j == i by {
                            if j < i {
                                assert(seen[j].tracks_wood());
                            }
                        }
                    }
                } else {
                    assert forall|j: int| 0 <= j < more.len() implies !(#[trigger] more[j]).tracks_wood() by {
                        if j < i {
                            assert(!seen[j].tracks_wood());
                        }
                    }
                }
            },
            Some(at) => {
                let earlier: bool = candidate && text_sorts_before(
                    items[i].created_at.as_str(),
                    items[at].created_at.as_str(),
                );
                if earlier {
                    best = Some(i);
                    proof {
                        let new_time = items@[i as int].created_at@;
                        let old_time = items@[at as int].created_at@;
                        lemma_sorts_before_total(new_time, new_time);
                        assert forall|j: int|
                            0 <= j < more.len() && (#[trigger] more[j]).tracks_wood() implies {
                            &&& !sorts_before(more[j].created_at@, new_time)
                            &&& j < i ==> sorts_before(new_time, more[j].created_at@)
                        } by {
                            if j < i {
                                let time = seen[j].created_at@;
                                assert(seen[j].tracks_wood());
                                assert(!sorts_before(time, old_time));
                                lemma_sorts_before_total(time, old_time);
                                lemma_sorts_before_total(time, new_time);
                                if time == old_time {
                                } else {
                                    lemma_sorts_before_transitive(new_time, old_time, time);
                                }
                            }
                        }
                    }
                } else {
                    proof {
                        let old_time = items@[at as int].created_at@;
                        assert(more[at as int] == seen[at as int]);
                        assert forall|j: int|
                            0 <= j < more.len() && (#[trigger] more[j]).tracks_wood() implies {
                            &&& !sorts_before(more[j].created_at@, old_time)
                            &&& j < at ==> sorts_before(old_time, more[j].created_at@)
                        } by {
                            if j < i {
                                assert(seen[j].tracks_wood());
                            }
                        }
                    }
                }
            },
        }
        i += 1;
    }
    assert(items@.take(i as int) =~= items@);
    proof {
        match best {
            Some(at) => {
                let chosen = choose|c: int| is_tracked_stock(items@, c);
                lemma_tracked_stock_unique(items@, chosen, at as int);
            },
            None => {
                assert forall|c: int| !is_tracked_stock(items@, c) by {
                    if 0 <= c < items@.len() {
                        assert(!items@[c].tracks_wood());
                    }
                }
            },
        }
    }
    best
}

/// Applies to the inventory what the change of an order's status asks for.
///
/// With a quantity of zero or less nothing happens. Otherwise the tracked
/// record is looked up, and the call fails with `NoTrackedStock` where there is
/// none, and with `InsufficientInventory` where the change would reserve more
/// than is available; after a failure the inventory is as before. On success
/// the result is the place of the record that was changed.
pub fn adjust_inventory_for_transition(
    items: &mut Vec<InventoryItem>,
    previous: WorkOrderStatus,
    next: WorkOrderStatus,
    quantity: i64,
) -> (outcome: Result<Option<usize>, Error>)
    ensures
        final(items)@.len() == old(items)@.len(),
        ledger_outcome(old(items)@, previous, next, quantity as int) == match outcome {
            Ok(_) => Ok::<Seq<InventoryItem>, Error>(final(items)@),
            Err(error) => Err(error),
        },
        outcome matches Ok(place) ==> place == if quantity <= 0 {
            None::<usize>
        } else {
            Some(tracked_stock(old(items)@)->0 as usize)
        },
        outcome is Err ==> final(items)@ == old(items)@,
{
    if quantity <= 0 {
        return Ok(None);
    }
    match find_tracked_stock(items) {
        None => Err(Error::NoTrackedStock),
        Some(at) => {
            assert(items@[at as int].tracks_wood());
            match items[at].levels_after(previous, next, quantity) {
                Err(error) => Err(error),
                Ok(levels) => {
                    items[at].quantity_on_hand = levels.0;
                    items[at].reserved_quantity = levels.1;
                    assert(items@ =~= old(items)@.update(
                        at as int,
                        old(items)@[at as int].with_levels(levels.0, levels.1),
                    ));
                    Ok(Some(at))
                },
            }
        },
    }
}

/// The levels after a change that does not fall short are numbers that a
/// record can hold, so that `item_after` has exactly the levels that
/// `on_hand_after` and `reserved_after` give.
pub proof fn lemma_levels_fit(
    item: InventoryItem,
    previous: WorkOrderStatus,
    next: WorkOrderStatus,
    quantity: int,
)
    requires
        !item.falls_short(previous, next, quantity),
    ensures
        item_after(item, previous, next, quantity).quantity_on_hand == on_hand_after(
            item.quantity_on_hand as int,
            previous,
            next,
            quantity,
        ),
        item_after(item, previous, next, quantity).reserved_quantity == reserved_after(
            item.reserved_quantity as int,
            previous,
            next,
            quantity,
        ),
{
}

/// The change completes an order that held no reservation, and takes wood
/// that is reserved for other orders.
pub open spec fn consumes_reserved_wood(
    item: InventoryItem,
    previous: WorkOrderStatus,
    next: WorkOrderStatus,
    quantity: int,
) -> bool {
    &&& quantity > 0
    &&& !previous.reserves()
    &&& consumes_wood(previous, next)
    &&& item.reserved_quantity > clamp_at_zero(item.quantity_on_hand - quantity)
}

/// A record that is well formed stays so under every change that the ledger
/// accepts, but for the one that `consumes_reserved_wood` describes.
pub proof fn lemma_ledger_keeps_invariant(
    item: InventoryItem,
    previous: WorkOrderStatus,
    next: WorkOrderStatus,
    quantity: int,
)
    requires
        item.well_formed(),
        !item.falls_short(previous, next, quantity),
        !consumes_reserved_wood(item, previous, next, quantity),
    ensures
        0 <= reserved_after(item.reserved_quantity as int, previous, next, quantity)
            <= on_hand_after(item.quantity_on_hand as int, previous, next, quantity),
{
}

/// A change from a status to the same status is accepted and leaves a
/// well-formed record as it is, whatever the status and the quantity.
pub proof fn lemma_same_status_changes_nothing(
    item: InventoryItem,
    status: WorkOrderStatus,
    quantity: int,
)
    requires
        item.well_formed(),
    ensures
        !item.falls_short(status, status, quantity),
        reserved_after(item.reserved_quantity as int, status, status, quantity)
            == item.reserved_quantity,
        on_hand_after(item.quantity_on_hand as int, status, status, quantity)
            == item.quantity_on_hand,
        item_after(item, status, status, quantity) == item,
{
}

/// Where the record is well formed and the quantity is one that the order can
/// account for (it releases no more than is reserved, and consumes no more
/// than is on hand), no level is clamped.
pub proof fn lemma_clamp_not_reached(
    item: InventoryItem,
    previous: WorkOrderStatus,
    next: WorkOrderStatus,
    quantity: int,
)
    requires
        item.well_formed(),
        quantity > 0,
        ends_reservation(previous, next) ==> quantity <= item.reserved_quantity,
        consumes_wood(previous, next) ==> quantity <= item.quantity_on_hand,
    ensures
        raw_reserved_after(item.reserved_quantity as int, previous, next, quantity) >= 0,
        raw_on_hand_after(item.quantity_on_hand as int, previous, next, quantity) >= 0,
        reserved_after(item.reserved_quantity as int, previous, next, quantity)
            == raw_reserved_after(item.reserved_quantity as int, previous, next, quantity),
        on_hand_after(item.quantity_on_hand as int, previous, next, quantity) == raw_on_hand_after(
            item.quantity_on_hand as int,
            previous,
            next,
            quantity,
        ),
{
}

/// What an order reserved it can release again: after a reservation that the
/// ledger accepted, the release of the same quantity is not clamped and gives
/// back the levels from before.
pub proof fn lemma_release_undoes_reservation(
    item: InventoryItem,
    idle: WorkOrderStatus,
    held: WorkOrderStatus,
    back: WorkOrderStatus,
    quantity: int,
)
    requires
        item.well_formed(),
        quantity > 0,
        !idle.reserves(),
        held.reserves(),
        !back.reserves(),
        back != WorkOrderStatus::Completed,
        !item.falls_short(idle, held, quantity),
    ensures
        ({
            let reserved = reserved_after(item.reserved_quantity as int, idle, held, quantity);
            let on_hand = on_hand_after(item.quantity_on_hand as int, idle, held, quantity);
            &&& raw_reserved_after(reserved, held, back, quantity) == item.reserved_quantity
            &&& reserved_after(reserved, held, back, quantity) == item.reserved_quantity
            &&& on_hand_after(on_hand, held, back, quantity) == item.quantity_on_hand
        }),
{
}

/// An inventory in which every record is well formed stays so under every
/// change that the ledger accepts, unless the change takes reserved wood from
/// the tracked record (see `consumes_reserved_wood`). Only the tracked record
/// changes.
pub proof fn lemma_inventory_stays_well_formed(
    items: Seq<InventoryItem>,
    previous: WorkOrderStatus,
    next: WorkOrderStatus,
    quantity: int,
)
    requires
        forall|i: int| 0 <= i < items.len() ==> (#[trigger] items[i]).well_formed(),
        tracked_stock(items) matches Some(at) ==> !consumes_reserved_wood(
            items[at],
            previous,
            next,
            quantity,
        ),
    ensures
        ledger_outcome(items, previous, next, quantity) matches Ok(after) ==> {
            &&& after.len() == items.len()
            &&& forall|i: int| 0 <= i < after.len() ==> (#[trigger] after[i]).well_formed()
            &&& forall|i: int|
                0 <= i < after.len() && tracked_stock(items) != Some(i) ==> after[i] == items[i]
        },
{
    if quantity > 0 {
        match tracked_stock(items) {
            Some(at) => {
                assert(is_tracked_stock(items, at));
                assert(items[at].well_formed());
                if !items[at].falls_short(previous, next, quantity) {
                    lemma_ledger_keeps_invariant(items[at], previous, next, quantity);
                }
            },
            None => {},
        }
    }
}

/// A change from a status to the same status leaves an inventory of
/// well-formed records as it is, whatever the status and the quantity, or
/// fails for want of a tracked record.
pub proof fn lemma_same_status_leaves_inventory(
    items: Seq<InventoryItem>,
    status: WorkOrderStatus,
    quantity: int,
)
    requires
        forall|i: int| 0 <= i < items.len() ==> (#[trigger] items[i]).well_formed(),
    ensures
        ledger_outcome(items, status, status, quantity) matches Ok(after) ==> after == items,
        ledger_outcome(items, status, status, quantity) matches Err(error) ==> error
            == Error::NoTrackedStock,
{
    if quantity > 0 {
        match tracked_stock(items) {
            Some(at) => {
                assert(is_tracked_stock(items, at));
                assert(items[at].well_formed());
                lemma_same_status_changes_nothing(items[at], status, quantity);
                assert(items.update(at, items[at]) =~= items);
            },
            None => {},
        }
    }
}

/// The request to edit a record of the inventory.
#[derive(Clone, Debug, PartialEq, Eq)]
pub struct InventoryUpdateInput {
    pub id: String,
    pub name: String,
    pub category: Option<String>,
    pub quantity_on_hand: i64,
    pub unit: String,
    pub reorder_threshold: i64,
    pub reorder_amount: Option<i64>,
    pub notes: Option<String>,
}

/// The fields of a record that an edit may change, each with its stored value
/// and the value that the edit gives it. Quantities are written as decimal
/// numbers: 4500 thousandths as `4.5`.
pub open spec fn inventory_values(stored: InventoryItem, input: InventoryUpdateInput) -> Seq<ValueRow> {
    seq![
        ValueRow { field: "name"@, old_value: Some(stored.name@), new_value: Some(input.name@) },
        ValueRow {
            field: "category"@,
            old_value: opt_text(stored.category),
            new_value: opt_text(input.category),
        },
        ValueRow {
            field: "quantity_on_hand"@,
            old_value: Some(decimal_number(stored.quantity_on_hand as int)),
            new_value: Some(decimal_number(input.quantity_on_hand as int)),
        },
        ValueRow { field: "unit"@, old_value: Some(stored.unit@), new_value: Some(input.unit@) },
        ValueRow {
            field: "reorder_threshold"@,
            old_value: Some(decimal_number(stored.reorder_threshold as int)),
            new_value: Some(decimal_number(input.reorder_threshold as int)),
        },
        ValueRow {
            field: "reorder_amount"@,
            old_value: opt_decimal_number(stored.reorder_amount),
            new_value: opt_decimal_number(input.reorder_amount),
        },
        ValueRow {
            field: "notes"@,
            old_value: opt_text(stored.notes),
            new_value: opt_text(input.notes),
        },
    ]
}

/// Whether an edit would leave less on hand than is reserved, or less than
/// nothing.
pub open spec fn edit_breaks_invariant(stored: InventoryItem, input: InventoryUpdateInput) -> bool {
    input.quantity_on_hand < 0 || input.quantity_on_hand < stored.reserved_quantity
}

/// The rows that an edit adds to the audit log: the event, and, where the
/// record exists and the edit is accepted, one row for each field whose value
/// changed.
pub open spec fn inventory_update_log(
    stored: Option<InventoryItem>,
    input: InventoryUpdateInput,
    role_name: Seq<char>,
    actor_name: Seq<char>,
) -> Seq<AuditRow> {
    let first = seq![event_row("update_inventory_item"@, role_name, actor_name)];
    match stored {
        Some(item) => if edit_breaks_invariant(item, input) {
            first
        } else {
            first + change_rows(
                "update_inventory_item"@,
                role_name,
                actor_name,
                "inventory_items"@,
                input.id@,
                inventory_values(item, input),
            )
        },
        None => first,
    }
}

/// Whether a record is the record `before` as an edit leaves it: the fields
/// that the edit names are as the edit has them, and the rest, the reserved
/// quantity among it, is as before.
pub open spec fn is_edited(after: InventoryItem, before: InventoryItem, input: InventoryUpdateInput) -> bool {
    &&& after.id == before.id
    &&& after.name@ == input.name@
    &&& opt_text(after.category) == opt_text(input.category)
    &&& after.unit@ == input.unit@
    &&& after.quantity_on_hand == input.quantity_on_hand
    &&& after.reserved_quantity == before.reserved_quantity
    &&& after.reorder_threshold == input.reorder_threshold
    &&& after.reorder_amount == input.reorder_amount
    &&& opt_text(after.notes) == opt_text(input.notes)
    &&& after.created_at == before.created_at
    &&& after.is_deleted == before.is_deleted
}

/// Edits a record of the inventory. `stored` is the record as it is, or `None`
/// where there is none.
///
/// The attempt is noted in the audit log. An edit that would leave less on
/// hand than is reserved, or less than nothing, is refused, and nothing but
/// the attempt is noted. Otherwise the result is the record as edited (`None`
/// where there is no record), the reserved quantity is left alone, and the
/// log holds one row for each field whose value changed. A record that is well
/// formed stays so.
pub fn update_inventory_item(
    stored: Option<InventoryItem>,
    input: InventoryUpdateInput,
    role: Option<String>,
    actor: Option<String>,
    log: &mut AuditLog,
) -> (outcome: Result<Option<InventoryItem>, Error>)
    ensures
        final(log)@ == old(log)@ + inventory_update_log(
            stored,
            input,
            noted_name(opt_text(role)),
            noted_name(opt_text(actor)),
        ),
        old(log).well_formed() ==> final(log).well_formed(),
        match stored {
            None => outcome == Ok::<Option<InventoryItem>, Error>(None),
            Some(before) => if edit_breaks_invariant(before, input) {
                outcome == Err::<Option<InventoryItem>, Error>(
                    Error::Validation(Invalid::QuantityBelowReserved),
                )
            } else {
                &&& outcome matches Ok(Some(after))
                &&& is_edited(after, before, input)
                &&& before.well_formed() ==> after.well_formed()
            },
        },
{
    let role_name = name_or_unknown(&role);
    let actor_name = name_or_unknown(&actor);
    log.record_event("update_inventory_item", role_name.as_str(), actor_name.as_str());
    let ghost first = seq![event_row("update_inventory_item"@, role_name@, actor_name@)];
    assert(log@ =~= old(log)@ + first);
    match stored {
        None => Ok(None),
        Some(item) => {
            if input.quantity_on_hand < 0 || input.quantity_on_hand < item.reserved_quantity {
                return Err(Error::Validation(Invalid::QuantityBelowReserved));
            }
            let mut values: Vec<FieldValue> = Vec::new();
            values.push(
                FieldValue {
                    field: "name".to_owned(),
                    old_value: Some(item.name.clone()),
                    new_value: Some(input.name.clone()),
                },
            );
            values.push(
                FieldValue {
                    field: "category".to_owned(),
                    old_value: clone_opt(&item.category),
                    new_value: clone_opt(&input.category),
                },
            );
            values.push(
                FieldValue {
                    field: "quantity_on_hand".to_owned(),
                    old_value: Some(quantity_text(item.quantity_on_hand)),
                    new_value: Some(quantity_text(input.quantity_on_hand)),
                },
            );
            values.push(
                FieldValue {
                    field: "unit".to_owned(),
                    old_value: Some(item.unit.clone()),
                    new_value: Some(input.unit.clone()),
                },
            );
            values.push(
                FieldValue {
                    field: "reorder_threshold".to_owned(),
                    old_value: Some(quantity_text(item.reorder_threshold)),
                    new_value: Some(quantity_text(input.reorder_threshold)),
                },
            );
            values.push(
                FieldValue {
                    field: "reorder_amount".to_owned(),
                    old_value: opt_quantity_text(item.reorder_amount),
                    new_value: opt_quantity_text(input.reorder_amount),
                },
            );
            values.push(
                FieldValue {
                    field: "notes".to_owned(),
                    old_value: clone_opt(&item.notes),
                    new_value: clone_opt(&input.notes),
                },
            );
            assert(value_rows(values@) =~= inventory_values(item, input));
            log.record_field_changes(
                "update_inventory_item",
                role_name.as_str(),
                actor_name.as_str(),
                "inventory_items",
                input.id.as_str(),
                &values,
            );
            assert(log@ =~= old(log)@ + inventory_update_log(
                stored,
                input,
                role_name@,
                actor_name@,
            ));
            let mut edited = item;
            edited.name = input.name;
            edited.category = input.category;
            edited.quantity_on_hand = input.quantity_on_hand;
            edited.unit = input.unit;
            edited.reorder_threshold = input.reorder_threshold;
            edited.reorder_amount = input.reorder_amount;
            edited.notes = input.notes;
            Ok(Some(edited))
        },
    }
}

} // verus!
