//! The work-order state machine: creating an order, changing its status and
//! assigning people to it. Each operation changes the inventory and the order
//! together or not at all, and writes the audit log as it goes.

use vstd::prelude::*;
use crate::audit::{change_rows, event_row, name_or_unknown, noted_name, value_rows, AuditLog,
    AuditRow, FieldValue, ValueRow};
use crate::error::{Denial, Error, Invalid, Missing};
use crate::ident::{fresh_id, is_uuid_text};
use crate::inventory::{adjust_inventory_for_transition, ledger_outcome, tracked_stock,
    InventoryItem};
use crate::quantity::{opt_decimal_number, opt_quantity_text};
use crate::records::{Address, ContactInfo, DeliveryEvent, DeliveryEventView, HeatSourceInfo,
    WorkOrder, WorkOrderAssignmentInput, WorkOrderAssignmentInputView, WorkOrderInput,
    WorkOrderInputView, WorkOrderStatusInput, WorkOrderStatusInputView, WorkOrderView, AddressView,
    ContactInfoView, HeatSourceInfoView};
use crate::role::{can_assign, can_create_orders, may_assign, may_create_orders, normalize_role,
    role_named, role_text, UserRole};
use crate::status::{status_named, WorkOrderStatus};
use crate::text::{clone_opt, join_texts, lowercase, opt_text, str_eq, to_lowercase};

verus! {

/// The list of assignees that is stored where none is given: the empty JSON
/// array.
pub open spec fn stored_assignees(given: Option<Seq<char>>) -> Seq<char> {
    match given {
        Some(text) => text,
        None => "[]"@,
    }
}

/// Whether the wood of an order is picked up rather than delivered: the kind
/// of fulfilment that the order names is `pickup`, in whatever case. Any other
/// kind, and none, is a delivery.
pub open spec fn is_pickup(kind: Option<Seq<char>>) -> bool {
    kind matches Some(text) && lowercase(text) == "pickup"@
}

/// The quantity of wood that an order takes from the stock: the pickup
/// quantity of a pickup, the size of a delivery otherwise, and nothing where
/// that number is missing.
pub open spec fn resolved_quantity(kind: Option<Seq<char>>, pickup: Option<i64>, delivery: Option<i64>) -> int {
    let number = if is_pickup(kind) {
        pickup
    } else {
        delivery
    };
    match number {
        Some(quantity) => quantity as int,
        None => 0,
    }
}

/// The status in which a new order starts: the one named, or `Draft` where
/// none is named; `None` where the name is no status.
pub open spec fn initial_status(given: Option<Seq<char>>) -> Option<WorkOrderStatus> {
    match given {
        Some(name) => status_named(lowercase(name)),
        None => Some(WorkOrderStatus::Draft),
    }
}

/// The order that a request describes, under a given identifier and in a given
/// status.
pub open spec fn new_order(input: WorkOrderInputView, id: Seq<char>, status: WorkOrderStatus) -> WorkOrderView {
    WorkOrderView {
        id,
        client_id: input.client_id,
        client_title: input.client_title,
        client_name: input.client_name,
        physical_address: AddressView {
            line1: input.physical_address_line1,
            line2: input.physical_address_line2,
            city: input.physical_address_city,
            state: input.physical_address_state,
            postal_code: input.physical_address_postal_code,
        },
        mailing_address_line1: input.mailing_address_line1,
        mailing_address_line2: input.mailing_address_line2,
        mailing_address_city: input.mailing_address_city,
        mailing_address_state: input.mailing_address_state,
        mailing_address_postal_code: input.mailing_address_postal_code,
        contact: ContactInfoView { telephone: input.telephone, email: input.email },
        directions: input.directions,
        gate_combo: input.gate_combo,
        mileage: input.mileage,
        other_heat_source: HeatSourceInfoView {
            gas: input.other_heat_source_gas,
            electric: input.other_heat_source_electric,
            other: input.other_heat_source_other,
        },
        notes: input.notes,
        scheduled_date: input.scheduled_date,
        status,
        wood_size_label: input.wood_size_label,
        wood_size_other: input.wood_size_other,
        delivery_size_label: input.delivery_size_label,
        delivery_size_cords: input.delivery_size_cords,
        pickup_delivery_type: input.pickup_delivery_type,
        pickup_quantity_cords: input.pickup_quantity_cords,
        pickup_length: input.pickup_length,
        pickup_width: input.pickup_width,
        pickup_height: input.pickup_height,
        pickup_units: input.pickup_units,
        assignees_json: Some(stored_assignees(input.assignees_json)),
        created_by_user_id: input.created_by_user_id,
        created_by_display: input.created_by_display,
        paired_order_id: input.paired_order_id,
        is_deleted: false,
    }
}

/// The calendar entry that goes with an order scheduled for a date.
pub open spec fn scheduled_event(
    event_id: Seq<char>,
    order_id: Seq<char>,
    date: Seq<char>,
    assignees: Seq<char>,
) -> DeliveryEventView {
    DeliveryEventView {
        id: event_id,
        title: "Work Order Scheduled"@,
        description: Some("Work order scheduled for "@ + date),
        event_type: "scheduled"@,
        work_order_id: Some(order_id),
        start_date: date,
        end_date: Some(date),
        color_code: Some("#3174ad"@),
        assigned_user_ids_json: assignees,
    }
}

/// The instruction to point one order at another: the order `order_id` gets
/// `paired_order_id` as its pair.
#[derive(Clone, Debug, PartialEq, Eq)]
pub struct BackReference {
    pub order_id: String,
    pub paired_order_id: String,
}

/// What a `BackReference` says.
pub struct BackReferenceView {
    pub order_id: Seq<char>,
    pub paired_order_id: Seq<char>,
}

impl View for BackReference {
    type V = BackReferenceView;

    open spec fn view(&self) -> BackReferenceView {
        BackReferenceView { order_id: self.order_id@, paired_order_id: self.paired_order_id@ }
    }
}

/// What the creation of a work order asks the store to write, besides the
/// inventory: the order, the pointer back from the order it is paired with,
/// and the calendar entry.
#[derive(Clone, Debug, PartialEq, Eq)]
pub struct CreatedWorkOrder {
    pub order: WorkOrder,
    /// Where the order names a pair: the pair is to point back at the order.
    /// The pair keeps pointing back when the order later changes its own
    /// pointer: the link is not taken apart from one side.
    pub back_reference: Option<BackReference>,
    pub delivery_event: Option<DeliveryEvent>,
    /// The place in the inventory of the record that was changed, if one was.
    pub stock: Option<usize>,
}

/// What a `CreatedWorkOrder` says.
pub struct CreatedWorkOrderView {
    pub order: WorkOrderView,
    pub back_reference: Option<BackReferenceView>,
    pub delivery_event: Option<DeliveryEventView>,
    pub stock: Option<usize>,
}

impl View for CreatedWorkOrder {
    type V = CreatedWorkOrderView;

    open spec fn view(&self) -> CreatedWorkOrderView {
        CreatedWorkOrderView {
            order: self.order@,
            back_reference: match self.back_reference {
                Some(reference) => Some(reference@),
                None => None,
            },
            delivery_event: match self.delivery_event {
                Some(event) => Some(event@),
                None => None,
            },
            stock: self.stock,
        }
    }
}

/// Why a request to create an order is turned down before the inventory is
/// looked at: the role may not create orders, or the status named is none.
pub open spec fn creation_refusal(role_name: Seq<char>, input: WorkOrderInputView) -> Option<Error> {
    if !may_create_orders(role_named(role_name)) {
        Some(Error::Forbidden(Denial::CreateNeedsStaffOrAdmin))
    } else if initial_status(input.status) is None {
        Some(Error::Validation(Invalid::UnknownStatus))
    } else {
        None
    }
}

/// The place of the record that the ledger changes for a quantity: none for a
/// quantity of zero or less.
pub open spec fn stock_place(items: Seq<InventoryItem>, quantity: int) -> Option<usize> {
    if quantity <= 0 {
        None
    } else {
        Some(tracked_stock(items)->0 as usize)
    }
}

/// What the creation of an order comes to, for given identifiers of the order
/// and of its calendar entry: what is to be written and the inventory
/// afterwards, or the reason why nothing is written.
pub open spec fn creation_outcome(
    input: WorkOrderInputView,
    role_name: Seq<char>,
    items: Seq<InventoryItem>,
    order_id: Seq<char>,
    event_id: Seq<char>,
) -> Result<(CreatedWorkOrderView, Seq<InventoryItem>), Error> {
    match creation_refusal(role_name, input) {
        Some(error) => Err(error),
        None => {
            let status = initial_status(input.status)->0;
            let quantity = resolved_quantity(
                input.pickup_delivery_type,
                input.pickup_quantity_cords,
                input.delivery_size_cords,
            );
            match ledger_outcome(items, WorkOrderStatus::Draft, status, quantity) {
                Err(error) => Err(error),
                Ok(after) => Ok(
                    (
                        CreatedWorkOrderView {
                            order: new_order(input, order_id, status),
                            back_reference: match input.paired_order_id {
                                Some(pair) => if pair.len() > 0 {
                                    Some(
                                        BackReferenceView {
                                            order_id: pair,
                                            paired_order_id: order_id,
                                        },
                                    )
                                } else {
                                    None
                                },
                                None => None,
                            },
                            delivery_event: match input.scheduled_date {
                                Some(date) => Some(
                                    scheduled_event(
                                        event_id,
                                        order_id,
                                        date,
                                        stored_assignees(input.assignees_json),
                                    ),
                                ),
                                None => None,
                            },
                            stock: stock_place(items, quantity),
                        },
                        after,
                    ),
                ),
            }
        },
    }
}

/// What an outcome says, together with the inventory that it leaves.
pub open spec fn creation_view(
    outcome: Result<CreatedWorkOrder, Error>,
    items: Seq<InventoryItem>,
) -> Result<(CreatedWorkOrderView, Seq<InventoryItem>), Error> {
    match outcome {
        Ok(created) => Ok((created@, items)),
        Err(error) => Err(error),
    }
}

/// The rows that the creation of an order adds to the audit log: none where
/// the role is turned down, the event otherwise.
pub open spec fn creation_log(role_name: Seq<char>) -> Seq<AuditRow> {
    if may_create_orders(role_named(role_name)) {
        seq![event_row("create_work_order"@, role_name, "unknown"@)]
    } else {
        Seq::empty()
    }
}

/// Whether the wood of an order is picked up rather than delivered.
pub fn is_pickup_order(kind: &Option<String>) -> (pickup: bool)
    ensures
        pickup == is_pickup(opt_text(*kind)),
{
    match kind {
        Some(text) => {
            let lower = to_lowercase(text.as_str());
            str_eq(lower.as_str(), "pickup")
        },
        None => false,
    }
}

/// The quantity of wood that an order takes from the stock (see
/// `resolved_quantity`).
pub fn resolve_quantity(kind: &Option<String>, pickup: Option<i64>, delivery: Option<i64>) -> (quantity: i64)
    ensures
        quantity == resolved_quantity(opt_text(*kind), pickup, delivery),
{
    let number = if is_pickup_order(kind) {
        pickup
    } else {
        delivery
    };
    match number {
        Some(quantity) => quantity,
        None => 0,
    }
}

/// The status in which a new order starts (see `initial_status`).
pub fn parse_initial_status(given: &Option<String>) -> (status: Option<WorkOrderStatus>)
    ensures
        status == initial_status(opt_text(*given)),
{
    match given {
        Some(name) => WorkOrderStatus::parse(name.as_str()),
        None => Some(WorkOrderStatus::Draft),
    }
}

/// Creates a work order under the identifiers given.
///
/// Only an admin or staff may do so; a role that is not given counts as
/// `admin`. The order starts in the status named (`draft` where none is
/// named), and the inventory is adjusted as for a change from `draft` to that
/// status. Where a date is set, the order gets a calendar entry with its
/// assignees. Where the order names a pair, the pair is to point back at it.
/// After a failure the inventory is as before.
pub fn plan_work_order(
    input: WorkOrderInput,
    role: Option<String>,
    order_id: String,
    event_id: String,
    items: &mut Vec<InventoryItem>,
    log: &mut AuditLog,
) -> (outcome: Result<CreatedWorkOrder, Error>)
    ensures
        creation_view(outcome, final(items)@) == creation_outcome(
            input@,
            role_text(opt_text(role)),
            old(items)@,
            order_id@,
            event_id@,
        ),
        outcome is Err ==> final(items)@ == old(items)@,
        final(log)@ == old(log)@ + creation_log(role_text(opt_text(role))),
        old(log).well_formed() ==> final(log).well_formed(),
{
    let role_name = normalize_role(&role);
    if !can_create_orders(UserRole::from_lowercase(role_name.as_str())) {
        assert(log@ =~= old(log)@ + creation_log(role_name@));
        return Err(Error::Forbidden(Denial::CreateNeedsStaffOrAdmin));
    }
    log.record_event("create_work_order", role_name.as_str(), "unknown");
    assert(log@ =~= old(log)@ + creation_log(role_name@));
    let status = match parse_initial_status(&input.status) {
        Some(status) => status,
        None => {
            return Err(Error::Validation(Invalid::UnknownStatus));
        },
    };
    let quantity = resolve_quantity(
        &input.pickup_delivery_type,
        input.pickup_quantity_cords,
        input.delivery_size_cords,
    );
    let stock = match adjust_inventory_for_transition(
        items,
        WorkOrderStatus::Draft,
        status,
        quantity,
    ) {
        Ok(place) => place,
        Err(error) => {
            return Err(error);
        },
    };
    let assignees: String = match &input.assignees_json {
        Some(text) => text.clone(),
        None => "[]".to_owned(),
    };
    let back_reference = match &input.paired_order_id {
        Some(pair) => if pair.as_str().unicode_len() > 0 {
            Some(BackReference { order_id: pair.clone(), paired_order_id: order_id.clone() })
        } else {
            None
        },
        None => None,
    };
    let delivery_event = match &input.scheduled_date {
        Some(date) => Some(
            DeliveryEvent {
                id: event_id,
                title: "Work Order Scheduled".to_owned(),
                description: Some(join_texts("Work order scheduled for ", date.as_str())),
                event_type: "scheduled".to_owned(),
                work_order_id: Some(order_id.clone()),
                start_date: date.clone(),
                end_date: Some(date.clone()),
                color_code: Some("#3174ad".to_owned()),
                assigned_user_ids_json: assignees.clone(),
            },
        ),
        None => None,
    };
    let order = WorkOrder {
        id: order_id,
        client_id: input.client_id,
        client_title: input.client_title,
        client_name: input.client_name,
        physical_address: Address {
            line1: input.physical_address_line1,
            line2: input.physical_address_line2,
            city: input.physical_address_city,
            state: input.physical_address_state,
            postal_code: input.physical_address_postal_code,
        },
        mailing_address_line1: input.mailing_address_line1,
        mailing_address_line2: input.mailing_address_line2,
        mailing_address_city: input.mailing_address_city,
        mailing_address_state: input.mailing_address_state,
        mailing_address_postal_code: input.mailing_address_postal_code,
        contact: ContactInfo { telephone: input.telephone, email: input.email },
        directions: input.directions,
        gate_combo: input.gate_combo,
        mileage: input.mileage,
        other_heat_source: HeatSourceInfo {
            gas: input.other_heat_source_gas,
            electric: input.other_heat_source_electric,
            other: input.other_heat_source_other,
        },
        notes: input.notes,
        scheduled_date: input.scheduled_date,
        status,
        wood_size_label: input.wood_size_label,
        wood_size_other: input.wood_size_other,
        delivery_size_label: input.delivery_size_label,
        delivery_size_cords: input.delivery_size_cords,
        pickup_delivery_type: input.pickup_delivery_type,
        pickup_quantity_cords: input.pickup_quantity_cords,
        pickup_length: input.pickup_length,
        pickup_width: input.pickup_width,
        pickup_height: input.pickup_height,
        pickup_units: input.pickup_units,
        assignees_json: Some(assignees),
        created_by_user_id: input.created_by_user_id,
        created_by_display: input.created_by_display,
        paired_order_id: input.paired_order_id,
        is_deleted: false,
    };
    Ok(CreatedWorkOrder { order, back_reference, delivery_event, stock })
}

/// Creates a work order (see `plan_work_order`) under new identifiers, which
/// are the only thing that the request does not determine.
pub fn create_work_order(
    input: WorkOrderInput,
    role: Option<String>,
    items: &mut Vec<InventoryItem>,
    log: &mut AuditLog,
) -> (outcome: Result<CreatedWorkOrder, Error>)
    ensures
        exists|order_id: Seq<char>, event_id: Seq<char>|
            {
                &&& is_uuid_text(order_id)
                &&& is_uuid_text(event_id)
                &&& creation_view(outcome, final(items)@) == #[trigger] creation_outcome(
                    input@,
                    role_text(opt_text(role)),
                    old(items)@,
                    order_id,
                    event_id,
                )
            },
        outcome is Err ==> final(items)@ == old(items)@,
        final(log)@ == old(log)@ + creation_log(role_text(opt_text(role))),
        old(log).well_formed() ==> final(log).well_formed(),
{
    let order_id = fresh_id();
    let event_id = fresh_id();
    plan_work_order(input, role, order_id, event_id, items, log)
}

/// Whether a flag is given and set.
pub open spec fn is_set(flag: Option<bool>) -> bool {
    flag == Some(true)
}

/// The status that a request asks for: the one named, or the current one
/// where none is named; `None` where the name is no status.
pub open spec fn requested_status(current: WorkOrderStatus, given: Option<Seq<char>>) -> Option<
    WorkOrderStatus,
> {
    match given {
        Some(name) => status_named(lowercase(name)),
        None => Some(current),
    }
}

/// Why an actor may not make a change of status: a volunteer who is no driver
/// changes nothing, and a driver-capable actor names only statuses that are
/// open to drivers.
pub open spec fn actor_refusal(
    role: Option<UserRole>,
    driver_capable: bool,
    names_status: bool,
    next: WorkOrderStatus,
) -> Option<Denial> {
    if role == Some(UserRole::Volunteer) && !driver_capable {
        Some(Denial::VolunteerUpdate)
    } else if driver_capable && names_status && !next.open_to_drivers() {
        Some(Denial::DriverStatus)
    } else {
        None
    }
}

/// Whether the state machine lets an actor take an order into a status.
pub open spec fn transition_allowed(
    role: Option<UserRole>,
    driver_capable: bool,
    names_status: bool,
    next: WorkOrderStatus,
    mileage_given: bool,
) -> bool {
    &&& next.needs_mileage() ==> mileage_given
    &&& actor_refusal(role, driver_capable, names_status, next) is None
}

/// Why a request to change a status is turned down before the inventory is
/// looked at. The first reason that applies is given: the order is missing,
/// deleted or another than the one named, the status named is none, the order
/// would be closed without a mileage, the actor may not make the change.
pub open spec fn transition_refusal(
    existing: Option<WorkOrderView>,
    input: WorkOrderStatusInputView,
    role: Option<UserRole>,
) -> Option<Error> {
    match existing {
        None => Some(Error::NotFound(Missing::WorkOrder)),
        Some(order) => if order.is_deleted || order.id != input.work_order_id {
            Some(Error::NotFound(Missing::WorkOrder))
        } else {
            match requested_status(order.status, input.status) {
                None => Some(Error::Validation(Invalid::UnknownStatus)),
                Some(next) => if next.needs_mileage() && input.mileage is None {
                    Some(Error::Validation(Invalid::MileageMissing))
                } else {
                    match actor_refusal(role, is_set(input.is_driver), input.status is Some, next) {
                        Some(denial) => Some(Error::Forbidden(denial)),
                        None => None,
                    }
                },
            }
        },
    }
}

/// The mileage of the order after the change: only a driver-capable actor
/// sets it.
pub open spec fn mileage_after(current: Option<i64>, input: WorkOrderStatusInputView) -> Option<i64> {
    if is_set(input.is_driver) && input.mileage is Some {
        input.mileage
    } else {
        current
    }
}

/// An order and the place in the inventory of the record that was changed
/// with it, if one was.
#[derive(Clone, Debug, PartialEq, Eq)]
pub struct UpdatedWorkOrder {
    pub order: WorkOrder,
    pub stock: Option<usize>,
}

/// What the change of a status comes to: the order and the inventory
/// afterwards, with the place of the record that was changed, or the reason
/// why nothing is changed. The inventory is adjusted only where the status
/// changes.
pub open spec fn status_update_outcome(
    existing: Option<WorkOrderView>,
    input: WorkOrderStatusInputView,
    role: Option<UserRole>,
    items: Seq<InventoryItem>,
) -> Result<(WorkOrderView, Option<usize>, Seq<InventoryItem>), Error> {
    match transition_refusal(existing, input, role) {
        Some(error) => Err(error),
        None => {
            let order = existing->0;
            let next = requested_status(order.status, input.status)->0;
            let updated = WorkOrderView {
                status: next,
                mileage: mileage_after(order.mileage, input),
                ..order
            };
            if order.status == next {
                Ok((updated, None, items))
            } else {
                let quantity = resolved_quantity(
                    order.pickup_delivery_type,
                    order.pickup_quantity_cords,
                    order.delivery_size_cords,
                );
                match ledger_outcome(items, order.status, next, quantity) {
                    Err(error) => Err(error),
                    Ok(after) => Ok((updated, stock_place(items, quantity), after)),
                }
            }
        },
    }
}

/// What an outcome says, together with the inventory that it leaves.
pub open spec fn update_view(outcome: Result<UpdatedWorkOrder, Error>, items: Seq<InventoryItem>) -> Result<
    (WorkOrderView, Option<usize>, Seq<InventoryItem>),
    Error,
> {
    match outcome {
        Ok(updated) => Ok((updated.order@, updated.stock, items)),
        Err(error) => Err(error),
    }
}

/// The fields that a change of status touches, each with its old and its new
/// value: the status, and the mileage where a driver-capable actor gives one.
pub open spec fn status_values(
    order: WorkOrderView,
    next: WorkOrderStatus,
    input: WorkOrderStatusInputView,
) -> Seq<ValueRow> {
    let status = ValueRow {
        field: "status"@,
        old_value: Some(order.status.name()),
        new_value: Some(next.name()),
    };
    if is_set(input.is_driver) && input.mileage is Some {
        seq![
            status,
            ValueRow {
                field: "mileage"@,
                old_value: opt_decimal_number(order.mileage),
                new_value: opt_decimal_number(input.mileage),
            },
        ]
    } else {
        seq![status]
    }
}

/// The rows that a request to change a status adds to the audit log: the
/// event, and after a change that went through one row for each field whose
/// value changed.
pub open spec fn status_update_log(
    existing: Option<WorkOrderView>,
    input: WorkOrderStatusInputView,
    role_name: Seq<char>,
    actor_name: Seq<char>,
    items: Seq<InventoryItem>,
) -> Seq<AuditRow> {
    let event = "update_work_order_status"@;
    let first = seq![event_row(event, role_name, actor_name)];
    if status_update_outcome(existing, input, role_named(role_name), items) is Ok {
        let order = existing->0;
        let next = requested_status(order.status, input.status)->0;
        first + change_rows(
            event,
            role_name,
            actor_name,
            "work_orders"@,
            input.work_order_id,
            status_values(order, next, input),
        )
    } else {
        first
    }
}

/// What a stored order says, if there is one.
pub open spec fn opt_order_view(existing: Option<WorkOrder>) -> Option<WorkOrderView> {
    match existing {
        Some(order) => Some(order@),
        None => None,
    }
}

/// The status that a request asks for (see `requested_status`).
pub fn parse_requested_status(current: WorkOrderStatus, given: &Option<String>) -> (status: Option<
    WorkOrderStatus,
>)
    ensures
        status == requested_status(current, opt_text(*given)),
{
    match given {
        Some(name) => WorkOrderStatus::parse(name.as_str()),
        None => Some(current),
    }
}

/// Why an actor may not make a change of status (see `actor_refusal`).
pub fn check_actor(
    role: Option<UserRole>,
    driver_capable: bool,
    names_status: bool,
    next: WorkOrderStatus,
) -> (refusal: Option<Denial>)
    ensures
        refusal == actor_refusal(role, driver_capable, names_status, next),
{
    let volunteer: bool = match role {
        Some(UserRole::Volunteer) => true,
        _ => false,
    };
    if volunteer && !driver_capable {
        Some(Denial::VolunteerUpdate)
    } else if driver_capable && names_status && !next.allowed_for_driver() {
        Some(Denial::DriverStatus)
    } else {
        None
    }
}

/// Changes the status of a work order, its mileage, or both.
///
/// `existing` is the stored order that the request names, or `None` where the
/// store has none. The request is noted in the audit log whatever comes of
/// it. It is turned down as `transition_refusal` says; otherwise, where the
/// status changes, the inventory is adjusted for the quantity of the stored
/// order, and a failure of the ledger is the failure of the request. After a
/// failure the inventory is as before and the order is not changed. After a
/// success the audit log holds a row for each field that changed.
pub fn update_work_order_status(
    existing: Option<WorkOrder>,
    input: &WorkOrderStatusInput,
    role: Option<String>,
    actor: Option<String>,
    items: &mut Vec<InventoryItem>,
    log: &mut AuditLog,
) -> (outcome: Result<UpdatedWorkOrder, Error>)
    ensures
        ({
            let existing_view = opt_order_view(existing);
            &&& update_view(outcome, final(items)@) == status_update_outcome(
                existing_view,
                input@,
                role_named(role_text(opt_text(role))),
                old(items)@,
            )
            &&& final(log)@ == old(log)@ + status_update_log(
                existing_view,
                input@,
                role_text(opt_text(role)),
                noted_name(opt_text(actor)),
                old(items)@,
            )
        }),
        outcome is Err ==> final(items)@ == old(items)@,
        outcome matches Ok(updated) ==> transition_allowed(
            role_named(role_text(opt_text(role))),
            is_set(input.is_driver),
            input.status is Some,
            updated.order.status,
            input.mileage is Some,
        ),
        old(log).well_formed() ==> final(log).well_formed(),
{
    let role_name = normalize_role(&role);
    let actor_name = name_or_unknown(&actor);
    let role_kind = UserRole::from_lowercase(role_name.as_str());
    let driver_capable: bool = match input.is_driver {
        Some(flag) => flag,
        None => false,
    };
    let ghost existing_view = opt_order_view(existing);
    let ghost first = seq![event_row("update_work_order_status"@, role_name@, actor_name@)];
    log.record_event("update_work_order_status", role_name.as_str(), actor_name.as_str());
    assert(log@ =~= old(log)@ + first);
    let mut order = match existing {
        Some(order) => order,
        None => {
            return Err(Error::NotFound(Missing::WorkOrder));
        },
    };
    if order.is_deleted || !str_eq(order.id.as_str(), input.work_order_id.as_str()) {
        return Err(Error::NotFound(Missing::WorkOrder));
    }
    let next = match parse_requested_status(order.status, &input.status) {
        Some(next) => next,
        None => {
            return Err(Error::Validation(Invalid::UnknownStatus));
        },
    };
    if next.requires_mileage() && input.mileage.is_none() {
        return Err(Error::Validation(Invalid::MileageMissing));
    }
    match check_actor(role_kind, driver_capable, input.status.is_some(), next) {
        Some(denial) => {
            return Err(Error::Forbidden(denial));
        },
        None => {},
    }
    let mut stock: Option<usize> = None;
    if order.status != next {
        let quantity = resolve_quantity(
            &order.pickup_delivery_type,
            order.pickup_quantity_cords,
            order.delivery_size_cords,
        );
        match adjust_inventory_for_transition(items, order.status, next, quantity) {
            Ok(place) => {
                stock = place;
            },
            Err(error) => {
                return Err(error);
            },
        }
    }
    let mut values: Vec<FieldValue> = Vec::new();
    values.push(
        FieldValue {
            field: "status".to_owned(),
            old_value: Some(order.status.as_str().to_owned()),
            new_value: Some(next.as_str().to_owned()),
        },
    );
    let ghost before = order@;
    if driver_capable && input.mileage.is_some() {
        values.push(
            FieldValue {
                field: "mileage".to_owned(),
                old_value: opt_quantity_text(order.mileage),
                new_value: opt_quantity_text(input.mileage),
            },
        );
        order.mileage = input.mileage;
    }
    order.status = next;
    assert(value_rows(values@) =~= status_values(before, next, input@));
    log.record_field_changes(
        "update_work_order_status",
        role_name.as_str(),
        actor_name.as_str(),
        "work_orders",
        input.work_order_id.as_str(),
        &values,
    );
    assert(log@ =~= old(log)@ + status_update_log(
        existing_view,
        input@,
        role_name@,
        actor_name@,
        old(items)@,
    ));
    Ok(UpdatedWorkOrder { order, stock })
}

/// Why a request to assign people is turned down: the role may not assign,
/// or the order is missing, deleted or another than the one named.
pub open spec fn assignment_refusal(
    existing: Option<WorkOrderView>,
    input: WorkOrderAssignmentInputView,
    role: Option<UserRole>,
) -> Option<Error> {
    if !may_assign(role) {
        Some(Error::Forbidden(Denial::AssignNeedsAdminOrLead))
    } else {
        match existing {
            None => Some(Error::NotFound(Missing::WorkOrder)),
            Some(order) => if order.is_deleted || order.id != input.work_order_id {
                Some(Error::NotFound(Missing::WorkOrder))
            } else {
                None
            },
        }
    }
}

/// The calendar entry with the assignees of its work order, if it is an entry
/// of the order named; any other entry as it is.
pub open spec fn event_mirrored(
    event: DeliveryEventView,
    order_id: Seq<char>,
    assignees: Seq<char>,
) -> DeliveryEventView {
    if event.work_order_id == Some(order_id) {
        DeliveryEventView { assigned_user_ids_json: assignees, ..event }
    } else {
        event
    }
}

/// The calendar with the assignees of a work order carried over to each of
/// the order's entries.
pub open spec fn events_mirrored(
    events: Seq<DeliveryEventView>,
    order_id: Seq<char>,
    assignees: Seq<char>,
) -> Seq<DeliveryEventView> {
    Seq::new(events.len(), |i: int| event_mirrored(events[i], order_id, assignees))
}

/// What the entries say, one by one.
pub open spec fn calendar_views(events: Seq<DeliveryEvent>) -> Seq<DeliveryEventView> {
    Seq::new(events.len(), |i: int| events[i]@)
}

/// The rows that a request to assign people adds to the audit log: none where
/// the role is turned down; otherwise the event, and after an assignment that
/// went through a row for the list of assignees if it changed.
pub open spec fn assignment_log(
    existing: Option<WorkOrderView>,
    input: WorkOrderAssignmentInputView,
    role_name: Seq<char>,
    actor_name: Seq<char>,
) -> Seq<AuditRow> {
    let event = "update_work_order_assignees"@;
    if !may_assign(role_named(role_name)) {
        Seq::empty()
    } else if assignment_refusal(existing, input, role_named(role_name)) is Some {
        seq![event_row(event, role_name, actor_name)]
    } else {
        seq![event_row(event, role_name, actor_name)] + change_rows(
            event,
            role_name,
            actor_name,
            "work_orders"@,
            input.work_order_id,
            seq![
                ValueRow {
                    field: "assignees_json"@,
                    old_value: existing->0.assignees_json,
                    new_value: input.assignees_json,
                },
            ],
        )
    }
}

/// Carries the assignees of a work order over to each of the order's calendar
/// entries, and leaves the other entries as they are.
pub fn mirror_assignees(events: &mut Vec<DeliveryEvent>, order_id: &str, assignees: &str)
    ensures
        calendar_views(final(events)@) == events_mirrored(
            calendar_views(old(events)@),
            order_id@,
            assignees@,
        ),
{
    let ghost before = calendar_views(events@);
    let mut i: usize = 0;
    while i < events.len()
        invariant
            i <= events.len(),
            events@.len() == old(events)@.len(),
            before == calendar_views(old(events)@),
            forall|j: int|
                0 <= j < i ==> (#[trigger] events@[j])@ == event_mirrored(
                    before[j],
                    order_id@,
                    assignees@,
                ),
            forall|j: int| i <= j < events@.len() ==> (#[trigger] events@[j])@ == before[j],
        decreases events.len() - i,
    {
        let linked: bool = match &events[i].work_order_id {
            Some(id) => str_eq(id.as_str(), order_id),
            None => false,
        };
        if linked {
            events[i].assigned_user_ids_json = assignees.to_owned();
        }
        i += 1;
    }
    assert(calendar_views(events@) =~= events_mirrored(before, order_id@, assignees@));
}

/// Assigns people to a work order.
///
/// Only an admin or a lead may do so; a role that is not given counts as
/// `admin`. `existing` is the stored order that the request names, or `None`
/// where the store has none. On success the order carries the list given, the
/// order's calendar entries carry it too (the empty list where none is
/// given), and the audit log holds the change. After a failure the calendar is
/// as before.
pub fn update_work_order_assignees(
    existing: Option<WorkOrder>,
    input: WorkOrderAssignmentInput,
    role: Option<String>,
    actor: Option<String>,
    events: &mut Vec<DeliveryEvent>,
    log: &mut AuditLog,
) -> (outcome: Result<WorkOrder, Error>)
    ensures
        ({
            let role_kind = role_named(role_text(opt_text(role)));
            let existing_view = opt_order_view(existing);
            &&& match assignment_refusal(existing_view, input@, role_kind) {
                Some(error) => outcome == Err::<WorkOrder, Error>(error) && final(events)@ == old(
                    events,
                )@,
                None => {
                    &&& outcome matches Ok(order)
                    &&& order@ == WorkOrderView {
                        assignees_json: input@.assignees_json,
                        ..existing_view->0
                    }
                    &&& calendar_views(final(events)@) == events_mirrored(
                        calendar_views(old(events)@),
                        input@.work_order_id,
                        stored_assignees(input@.assignees_json),
                    )
                },
            }
            &&& final(log)@ == old(log)@ + assignment_log(
                existing_view,
                input@,
                role_text(opt_text(role)),
                noted_name(opt_text(actor)),
            )
        }),
        old(log).well_formed() ==> final(log).well_formed(),
{
    let role_name = normalize_role(&role);
    let actor_name = name_or_unknown(&actor);
    let ghost existing_view = opt_order_view(existing);
    if !can_assign(UserRole::from_lowercase(role_name.as_str())) {
        assert(log@ =~= old(log)@ + assignment_log(
            existing_view,
            input@,
            role_name@,
            actor_name@,
        ));
        return Err(Error::Forbidden(Denial::AssignNeedsAdminOrLead));
    }
    log.record_event("update_work_order_assignees", role_name.as_str(), actor_name.as_str());
    let ghost first = seq![
        event_row("update_work_order_assignees"@, role_name@, actor_name@),
    ];
    assert(log@ =~= old(log)@ + first);
    let mut order = match existing {
        Some(order) => order,
        None => {
            return Err(Error::NotFound(Missing::WorkOrder));
        },
    };
    if order.is_deleted || !str_eq(order.id.as_str(), input.work_order_id.as_str()) {
        return Err(Error::NotFound(Missing::WorkOrder));
    }
    let stored: String = match &input.assignees_json {
        Some(text) => text.clone(),
        None => "[]".to_owned(),
    };
    mirror_assignees(events, input.work_order_id.as_str(), stored.as_str());
    let mut values: Vec<FieldValue> = Vec::new();
    values.push(
        FieldValue {
            field: "assignees_json".to_owned(),
            old_value: clone_opt(&order.assignees_json),
            new_value: clone_opt(&input.assignees_json),
        },
    );
    assert(value_rows(values@) =~= seq![
        ValueRow {
            field: "assignees_json"@,
            old_value: existing_view->0.assignees_json,
            new_value: input@.assignees_json,
        },
    ]);
    log.record_field_changes(
        "update_work_order_assignees",
        role_name.as_str(),
        actor_name.as_str(),
        "work_orders",
        input.work_order_id.as_str(),
        &values,
    );
    assert(log@ =~= old(log)@ + assignment_log(
        existing_view,
        input@,
        role_name@,
        actor_name@,
    ));
    order.assignees_json = input.assignees_json;
    Ok(order)
}

/// An order is created only by an admin or staff, and starts in the status
/// that the request names.
pub proof fn lemma_created_orders_are_allowed(
    input: WorkOrderInputView,
    role_name: Seq<char>,
    items: Seq<InventoryItem>,
    order_id: Seq<char>,
    event_id: Seq<char>,
)
    ensures
        creation_outcome(input, role_name, items, order_id, event_id) matches Ok(created) ==> {
            &&& may_create_orders(role_named(role_name))
            &&& initial_status(input.status) == Some(created.0.order.status)
            &&& ledger_outcome(
                items,
                WorkOrderStatus::Draft,
                created.0.order.status,
                resolved_quantity(
                    input.pickup_delivery_type,
                    input.pickup_quantity_cords,
                    input.delivery_size_cords,
                ),
            ) == Ok::<Seq<InventoryItem>, Error>(created.1)
        },
{
}

/// Every change of status that goes through is one that the state machine
/// allows the actor: the order exists, the status is the one asked for, an
/// order is closed only with a mileage, a volunteer who is no driver changes
/// nothing, and a driver-capable actor names only statuses open to drivers.
/// The inventory takes part in the change exactly where the status changes.
pub proof fn lemma_status_changes_are_allowed(
    existing: Option<WorkOrderView>,
    input: WorkOrderStatusInputView,
    role: Option<UserRole>,
    items: Seq<InventoryItem>,
)
    ensures
        status_update_outcome(existing, input, role, items) matches Ok(updated) ==> {
            &&& existing matches Some(order)
            &&& !order.is_deleted
            &&& order.id == input.work_order_id
            &&& requested_status(order.status, input.status) == Some(updated.0.status)
            &&& transition_allowed(
                role,
                is_set(input.is_driver),
                input.status is Some,
                updated.0.status,
                input.mileage is Some,
            )
            &&& updated.0.status == order.status ==> updated.2 == items
            &&& updated.0.status != order.status ==> ledger_outcome(
                items,
                order.status,
                updated.0.status,
                resolved_quantity(
                    order.pickup_delivery_type,
                    order.pickup_quantity_cords,
                    order.delivery_size_cords,
                ),
            ) == Ok::<Seq<InventoryItem>, Error>(updated.2)
        },
{
}

/// A request that leaves the status and the mileage of an order as they are
/// adds nothing to the audit log but the event.
pub proof fn lemma_unchanged_status_leaves_no_change_row(
    existing: Option<WorkOrderView>,
    input: WorkOrderStatusInputView,
    role_name: Seq<char>,
    actor_name: Seq<char>,
    items: Seq<InventoryItem>,
)
    requires
        status_update_outcome(existing, input, role_named(role_name), items) matches Ok(updated)
            ==> updated.0.status == existing->0.status && updated.0.mileage
            == existing->0.mileage,
        status_update_outcome(existing, input, role_named(role_name), items) is Ok,
    ensures
        status_update_log(existing, input, role_name, actor_name, items) == seq![
            event_row("update_work_order_status"@, role_name, actor_name),
        ],
{
    let order = existing->0;
    let next = requested_status(order.status, input.status)->0;
    let values = status_values(order, next, input);
    reveal_with_fuel(crate::audit::changed, 3);
    assert(crate::audit::changed(values) =~= Seq::<ValueRow>::empty());
    assert(change_rows(
        "update_work_order_status"@,
        role_name,
        actor_name,
        "work_orders"@,
        input.work_order_id,
        values,
    ) =~= Seq::<AuditRow>::empty());
    assert(seq![event_row("update_work_order_status"@, role_name, actor_name)] + Seq::<
        AuditRow,
    >::empty() =~= seq![event_row("update_work_order_status"@, role_name, actor_name)]);
}

/// What is not said is taken at its least surprising: a request without a
/// role is an admin's, and an order without a status starts as a draft.
pub proof fn lemma_defaults()
    ensures
        role_named(role_text(None)) == Some(UserRole::Admin),
        may_create_orders(role_named(role_text(None))),
        initial_status(None) == Some(WorkOrderStatus::Draft),
{
}

} // verus!
