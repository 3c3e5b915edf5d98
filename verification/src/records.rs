//! The records of the work-order lifecycle: the order itself, the requests
//! that create and change it, and the calendar entry that goes with it; and
//! the kinds and states of the records around it.
//!
//! Quantities of wood are whole thousandths of a cord, and mileages whole
//! thousandths of a mile (see the module `quantity`).

use vstd::prelude::*;
use crate::status::WorkOrderStatus;
use crate::text::opt_text;

verus! {

/// A postal address.
#[derive(Clone, Debug, PartialEq, Eq)]
pub struct Address {
    pub line1: String,
    pub line2: Option<String>,
    pub city: String,
    pub state: String,
    pub postal_code: String,
}

/// What an `Address` says.
pub struct AddressView {
    pub line1: Seq<char>,
    pub line2: Option<Seq<char>>,
    pub city: Seq<char>,
    pub state: Seq<char>,
    pub postal_code: Seq<char>,
}

impl View for Address {
    type V = AddressView;

    open spec fn view(&self) -> AddressView {
        AddressView {
            line1: self.line1@,
            line2: opt_text(self.line2),
            city: self.city@,
            state: self.state@,
            postal_code: self.postal_code@,
        }
    }
}

/// How to reach a client.
#[derive(Clone, Debug, PartialEq, Eq)]
pub struct ContactInfo {
    pub telephone: Option<String>,
    pub email: Option<String>,
}

/// What a `ContactInfo` says.
pub struct ContactInfoView {
    pub telephone: Option<Seq<char>>,
    pub email: Option<Seq<char>>,
}

impl View for ContactInfo {
    type V = ContactInfoView;

    open spec fn view(&self) -> ContactInfoView {
        ContactInfoView {
            telephone: opt_text(self.telephone),
            email: opt_text(self.email),
        }
    }
}

/// The heat sources of a household besides wood.
#[derive(Clone, Debug, PartialEq, Eq)]
pub struct HeatSourceInfo {
    pub gas: bool,
    pub electric: bool,
    pub other: Option<String>,
}

/// What a `HeatSourceInfo` says.
pub struct HeatSourceInfoView {
    pub gas: bool,
    pub electric: bool,
    pub other: Option<Seq<char>>,
}

impl View for HeatSourceInfo {
    type V = HeatSourceInfoView;

    open spec fn view(&self) -> HeatSourceInfoView {
        HeatSourceInfoView {
            gas: self.gas,
            electric: self.electric,
            other: opt_text(self.other),
        }
    }
}

/// The request to create a work order: the client and a snapshot of what is
/// known of them, the scheduling, and the size of the delivery or pickup.
#[derive(Clone, Debug, PartialEq, Eq)]
pub struct WorkOrderInput {
    pub client_id: String,
    pub client_title: Option<String>,
    pub client_name: String,
    pub physical_address_line1: String,
    pub physical_address_line2: Option<String>,
    pub physical_address_city: String,
    pub physical_address_state: String,
    pub physical_address_postal_code: String,
    pub mailing_address_line1: Option<String>,
    pub mailing_address_line2: Option<String>,
    pub mailing_address_city: Option<String>,
    pub mailing_address_state: Option<String>,
    pub mailing_address_postal_code: Option<String>,
    pub telephone: Option<String>,
    pub email: Option<String>,
    pub directions: Option<String>,
    pub gate_combo: Option<String>,
    pub mileage: Option<i64>,
    pub other_heat_source_gas: bool,
    pub other_heat_source_electric: bool,
    pub other_heat_source_other: Option<String>,
    pub notes: Option<String>,
    pub scheduled_date: Option<String>,
    /// The status to start in; `draft` where none is given.
    pub status: Option<String>,
    pub wood_size_label: Option<String>,
    pub wood_size_other: Option<String>,
    pub delivery_size_label: Option<String>,
    pub delivery_size_cords: Option<i64>,
    /// Whether the wood is picked up (`pickup`) or delivered (anything else).
    pub pickup_delivery_type: Option<String>,
    pub pickup_quantity_cords: Option<i64>,
    pub pickup_length: Option<i64>,
    pub pickup_width: Option<i64>,
    pub pickup_height: Option<i64>,
    pub pickup_units: Option<String>,
    /// The people assigned, as a JSON array of names.
    pub assignees_json: Option<String>,
    pub created_by_user_id: Option<String>,
    pub created_by_display: Option<String>,
    /// The order that this one is paired with, as a delivery with a pickup.
    pub paired_order_id: Option<String>,
}

/// What a `WorkOrderInput` says.
pub struct WorkOrderInputView {
    pub client_id: Seq<char>,
    pub client_title: Option<Seq<char>>,
    pub client_name: Seq<char>,
    pub physical_address_line1: Seq<char>,
    pub physical_address_line2: Option<Seq<char>>,
    pub physical_address_city: Seq<char>,
    pub physical_address_state: Seq<char>,
    pub physical_address_postal_code: Seq<char>,
    pub mailing_address_line1: Option<Seq<char>>,
    pub mailing_address_line2: Option<Seq<char>>,
    pub mailing_address_city: Option<Seq<char>>,
    pub mailing_address_state: Option<Seq<char>>,
    pub mailing_address_postal_code: Option<Seq<char>>,
    pub telephone: Option<Seq<char>>,
    pub email: Option<Seq<char>>,
    pub directions: Option<Seq<char>>,
    pub gate_combo: Option<Seq<char>>,
    pub mileage: Option<i64>,
    pub other_heat_source_gas: bool,
    pub other_heat_source_electric: bool,
    pub other_heat_source_other: Option<Seq<char>>,
    pub notes: Option<Seq<char>>,
    pub scheduled_date: Option<Seq<char>>,
    pub status: Option<Seq<char>>,
    pub wood_size_label: Option<Seq<char>>,
    pub wood_size_other: Option<Seq<char>>,
    pub delivery_size_label: Option<Seq<char>>,
    pub delivery_size_cords: Option<i64>,
    pub pickup_delivery_type: Option<Seq<char>>,
    pub pickup_quantity_cords: Option<i64>,
    pub pickup_length: Option<i64>,
    pub pickup_width: Option<i64>,
    pub pickup_height: Option<i64>,
    pub pickup_units: Option<Seq<char>>,
    pub assignees_json: Option<Seq<char>>,
    pub created_by_user_id: Option<Seq<char>>,
    pub created_by_display: Option<Seq<char>>,
    pub paired_order_id: Option<Seq<char>>,
}

impl View for WorkOrderInput {
    type V = WorkOrderInputView;

    open spec fn view(&self) -> WorkOrderInputView {
        WorkOrderInputView {
            client_id: self.client_id@,
            client_title: opt_text(self.client_title),
            client_name: self.client_name@,
            physical_address_line1: self.physical_address_line1@,
            physical_address_line2: opt_text(self.physical_address_line2),
            physical_address_city: self.physical_address_city@,
            physical_address_state: self.physical_address_state@,
            physical_address_postal_code: self.physical_address_postal_code@,
            mailing_address_line1: opt_text(self.mailing_address_line1),
            mailing_address_line2: opt_text(self.mailing_address_line2),
            mailing_address_city: opt_text(self.mailing_address_city),
            mailing_address_state: opt_text(self.mailing_address_state),
            mailing_address_postal_code: opt_text(self.mailing_address_postal_code),
            telephone: opt_text(self.telephone),
            email: opt_text(self.email),
            directions: opt_text(self.directions),
            gate_combo: opt_text(self.gate_combo),
            mileage: self.mileage,
            other_heat_source_gas: self.other_heat_source_gas,
            other_heat_source_electric: self.other_heat_source_electric,
            other_heat_source_other: opt_text(self.other_heat_source_other),
            notes: opt_text(self.notes),
            scheduled_date: opt_text(self.scheduled_date),
            status: opt_text(self.status),
            wood_size_label: opt_text(self.wood_size_label),
            wood_size_other: opt_text(self.wood_size_other),
            delivery_size_label: opt_text(self.delivery_size_label),
            delivery_size_cords: self.delivery_size_cords,
            pickup_delivery_type: opt_text(self.pickup_delivery_type),
            pickup_quantity_cords: self.pickup_quantity_cords,
            pickup_length: self.pickup_length,
            pickup_width: self.pickup_width,
            pickup_height: self.pickup_height,
            pickup_units: opt_text(self.pickup_units),
            assignees_json: opt_text(self.assignees_json),
            created_by_user_id: opt_text(self.created_by_user_id),
            created_by_display: opt_text(self.created_by_display),
            paired_order_id: opt_text(self.paired_order_id),
        }
    }
}

/// A work order as it is stored. It is never removed, only marked as deleted.
#[derive(Clone, Debug, PartialEq, Eq)]
pub struct WorkOrder {
    pub id: String,
    pub client_id: String,
    pub client_title: Option<String>,
    pub client_name: String,
    pub physical_address: Address,
    pub mailing_address_line1: Option<String>,
    pub mailing_address_line2: Option<String>,
    pub mailing_address_city: Option<String>,
    pub mailing_address_state: Option<String>,
    pub mailing_address_postal_code: Option<String>,
    pub contact: ContactInfo,
    pub directions: Option<String>,
    pub gate_combo: Option<String>,
    /// The mileage that the driver reported.
    pub mileage: Option<i64>,
    pub other_heat_source: HeatSourceInfo,
    pub notes: Option<String>,
    pub scheduled_date: Option<String>,
    pub status: WorkOrderStatus,
    pub wood_size_label: Option<String>,
    pub wood_size_other: Option<String>,
    pub delivery_size_label: Option<String>,
    pub delivery_size_cords: Option<i64>,
    pub pickup_delivery_type: Option<String>,
    pub pickup_quantity_cords: Option<i64>,
    pub pickup_length: Option<i64>,
    pub pickup_width: Option<i64>,
    pub pickup_height: Option<i64>,
    pub pickup_units: Option<String>,
    /// The people assigned, as a JSON array of names.
    pub assignees_json: Option<String>,
    pub created_by_user_id: Option<String>,
    pub created_by_display: Option<String>,
    pub paired_order_id: Option<String>,
    pub is_deleted: bool,
}

/// What a `WorkOrder` says.
pub struct WorkOrderView {
    pub id: Seq<char>,
    pub client_id: Seq<char>,
    pub client_title: Option<Seq<char>>,
    pub client_name: Seq<char>,
    pub physical_address: AddressView,
    pub mailing_address_line1: Option<Seq<char>>,
    pub mailing_address_line2: Option<Seq<char>>,
    pub mailing_address_city: Option<Seq<char>>,
    pub mailing_address_state: Option<Seq<char>>,
    pub mailing_address_postal_code: Option<Seq<char>>,
    pub contact: ContactInfoView,
    pub directions: Option<Seq<char>>,
    pub gate_combo: Option<Seq<char>>,
    pub mileage: Option<i64>,
    pub other_heat_source: HeatSourceInfoView,
    pub notes: Option<Seq<char>>,
    pub scheduled_date: Option<Seq<char>>,
    pub status: WorkOrderStatus,
    pub wood_size_label: Option<Seq<char>>,
    pub wood_size_other: Option<Seq<char>>,
    pub delivery_size_label: Option<Seq<char>>,
    pub delivery_size_cords: Option<i64>,
    pub pickup_delivery_type: Option<Seq<char>>,
    pub pickup_quantity_cords: Option<i64>,
    pub pickup_length: Option<i64>,
    pub pickup_width: Option<i64>,
    pub pickup_height: Option<i64>,
    pub pickup_units: Option<Seq<char>>,
    pub assignees_json: Option<Seq<char>>,
    pub created_by_user_id: Option<Seq<char>>,
    pub created_by_display: Option<Seq<char>>,
    pub paired_order_id: Option<Seq<char>>,
    pub is_deleted: bool,
}

impl View for WorkOrder {
    type V = WorkOrderView;

    open spec fn view(&self) -> WorkOrderView {
        WorkOrderView {
            id: self.id@,
            client_id: self.client_id@,
            client_title: opt_text(self.client_title),
            client_name: self.client_name@,
            physical_address: self.physical_address@,
            mailing_address_line1: opt_text(self.mailing_address_line1),
            mailing_address_line2: opt_text(self.mailing_address_line2),
            mailing_address_city: opt_text(self.mailing_address_city),
            mailing_address_state: opt_text(self.mailing_address_state),
            mailing_address_postal_code: opt_text(self.mailing_address_postal_code),
            contact: self.contact@,
            directions: opt_text(self.directions),
            gate_combo: opt_text(self.gate_combo),
            mileage: self.mileage,
            other_heat_source: self.other_heat_source@,
            notes: opt_text(self.notes),
            scheduled_date: opt_text(self.scheduled_date),
            status: self.status,
            wood_size_label: opt_text(self.wood_size_label),
            wood_size_other: opt_text(self.wood_size_other),
            delivery_size_label: opt_text(self.delivery_size_label),
            delivery_size_cords: self.delivery_size_cords,
            pickup_delivery_type: opt_text(self.pickup_delivery_type),
            pickup_quantity_cords: self.pickup_quantity_cords,
            pickup_length: self.pickup_length,
            pickup_width: self.pickup_width,
            pickup_height: self.pickup_height,
            pickup_units: opt_text(self.pickup_units),
            assignees_json: opt_text(self.assignees_json),
            created_by_user_id: opt_text(self.created_by_user_id),
            created_by_display: opt_text(self.created_by_display),
            paired_order_id: opt_text(self.paired_order_id),
            is_deleted: self.is_deleted,
        }
    }
}

/// The request to change the status of a work order, its mileage, or both.
#[derive(Clone, Debug, PartialEq, Eq)]
pub struct WorkOrderStatusInput {
    pub work_order_id: String,
    /// The status to move to; the order keeps its status where none is given.
    pub status: Option<String>,
    pub mileage: Option<i64>,
    /// Whether the actor is driver-capable; `false` where it is not given.
    pub is_driver: Option<bool>,
}

/// What a `WorkOrderStatusInput` says.
pub struct WorkOrderStatusInputView {
    pub work_order_id: Seq<char>,
    pub status: Option<Seq<char>>,
    pub mileage: Option<i64>,
    pub is_driver: Option<bool>,
}

impl View for WorkOrderStatusInput {
    type V = WorkOrderStatusInputView;

    open spec fn view(&self) -> WorkOrderStatusInputView {
        WorkOrderStatusInputView {
            work_order_id: self.work_order_id@,
            status: opt_text(self.status),
            mileage: self.mileage,
            is_driver: self.is_driver,
        }
    }
}

/// The request to assign people to a work order.
#[derive(Clone, Debug, PartialEq, Eq)]
pub struct WorkOrderAssignmentInput {
    pub work_order_id: String,
    pub assignees_json: Option<String>,
}

/// What a `WorkOrderAssignmentInput` says.
pub struct WorkOrderAssignmentInputView {
    pub work_order_id: Seq<char>,
    pub assignees_json: Option<Seq<char>>,
}

impl View for WorkOrderAssignmentInput {
    type V = WorkOrderAssignmentInputView;

    open spec fn view(&self) -> WorkOrderAssignmentInputView {
        WorkOrderAssignmentInputView {
            work_order_id: self.work_order_id@,
            assignees_json: opt_text(self.assignees_json),
        }
    }
}

/// An entry of the delivery calendar. An entry made for a work order carries
/// the order's assignees.
#[derive(Clone, Debug, PartialEq, Eq)]
pub struct DeliveryEvent {
    pub id: String,
    pub title: String,
    pub description: Option<String>,
    pub event_type: String,
    pub work_order_id: Option<String>,
    pub start_date: String,
    pub end_date: Option<String>,
    pub color_code: Option<String>,
    pub assigned_user_ids_json: String,
}

/// What a `DeliveryEvent` says.
pub struct DeliveryEventView {
    pub id: Seq<char>,
    pub title: Seq<char>,
    pub description: Option<Seq<char>>,
    pub event_type: Seq<char>,
    pub work_order_id: Option<Seq<char>>,
    pub start_date: Seq<char>,
    pub end_date: Option<Seq<char>>,
    pub color_code: Option<Seq<char>>,
    pub assigned_user_ids_json: Seq<char>,
}

impl View for DeliveryEvent {
    type V = DeliveryEventView;

    open spec fn view(&self) -> DeliveryEventView {
        DeliveryEventView {
            id: self.id@,
            title: self.title@,
            description: opt_text(self.description),
            event_type: self.event_type@,
            work_order_id: opt_text(self.work_order_id),
            start_date: self.start_date@,
            end_date: opt_text(self.end_date),
            color_code: opt_text(self.color_code),
            assigned_user_ids_json: self.assigned_user_ids_json@,
        }
    }
}
/// What an entry of the calendar is for.
#[derive(Clone, Copy, Debug, PartialEq, Eq, Structural)]
pub enum DeliveryEventType {
    Delivery,
    Meeting,
    Workday,
}

impl DeliveryEventType {
    /// The name under which the kind is stored.
    pub open spec fn name(self) -> Seq<char> {
        match self {
            DeliveryEventType::Delivery => "delivery"@,
            DeliveryEventType::Meeting => "meeting"@,
            DeliveryEventType::Workday => "workday"@,
        }
    }

    pub fn as_str(&self) -> (name: &'static str)
        ensures
            name@ == self.name(),
    {
        match self {
            DeliveryEventType::Delivery => "delivery",
            DeliveryEventType::Meeting => "meeting",
            DeliveryEventType::Workday => "workday",
        }
    }
}

/// How far a request for a change has come.
#[derive(Clone, Copy, Debug, PartialEq, Eq, Structural)]
pub enum ChangeRequestStatus {
    Open,
    InReview,
    Approved,
    Rejected,
}

impl ChangeRequestStatus {
    /// The name under which the status is stored.
    pub open spec fn name(self) -> Seq<char> {
        match self {
            ChangeRequestStatus::Open => "open"@,
            ChangeRequestStatus::InReview => "in_review"@,
            ChangeRequestStatus::Approved => "approved"@,
            ChangeRequestStatus::Rejected => "rejected"@,
        }
    }

    pub fn as_str(&self) -> (name: &'static str)
        ensures
            name@ == self.name(),
    {
        match self {
            ChangeRequestStatus::Open => "open",
            ChangeRequestStatus::InReview => "in_review",
            ChangeRequestStatus::Approved => "approved",
            ChangeRequestStatus::Rejected => "rejected",
        }
    }
}

/// A record that was changed since it was last brought in line with a remote
/// store.
#[derive(Clone, Debug, PartialEq, Eq)]
pub struct SyncRecord {
    pub table_name: String,
    pub record_id: String,
    pub updated_at: Option<String>,
    pub last_synced_at: Option<String>,
    pub version: i64,
}

} // verus!
