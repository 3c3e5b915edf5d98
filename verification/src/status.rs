//! The statuses of a work order and which of them hold a reservation.

use vstd::prelude::*;
use crate::text::{lowercase, str_eq, to_lowercase};

verus! {

/// The status of a work order. An order starts as `Draft` unless it is
/// created in another status; which status may follow which is not laid down,
/// only who may move an order where (see `work_order`).
#[derive(Clone, Copy, Debug, PartialEq, Eq, Structural)]
pub enum WorkOrderStatus {
    Draft,
    Scheduled,
    InProgress,
    Completed,
    Cancelled,
    Delivered,
    Issue,
}

/// The status that a lowercase name stands for, if any.
pub open spec fn status_named(lower: Seq<char>) -> Option<WorkOrderStatus> {
    if lower == "draft"@ {
        Some(WorkOrderStatus::Draft)
    } else if lower == "scheduled"@ {
        Some(WorkOrderStatus::Scheduled)
    } else if lower == "in_progress"@ {
        Some(WorkOrderStatus::InProgress)
    } else if lower == "completed"@ {
        Some(WorkOrderStatus::Completed)
    } else if lower == "cancelled"@ {
        Some(WorkOrderStatus::Cancelled)
    } else if lower == "delivered"@ {
        Some(WorkOrderStatus::Delivered)
    } else if lower == "issue"@ {
        Some(WorkOrderStatus::Issue)
    } else {
        None
    }
}

impl WorkOrderStatus {
    /// The name under which the status is stored.
    pub open spec fn name(self) -> Seq<char> {
        match self {
            WorkOrderStatus::Draft => "draft"@,
            WorkOrderStatus::Scheduled => "scheduled"@,
            WorkOrderStatus::InProgress => "in_progress"@,
            WorkOrderStatus::Completed => "completed"@,
            WorkOrderStatus::Cancelled => "cancelled"@,
            WorkOrderStatus::Delivered => "delivered"@,
            WorkOrderStatus::Issue => "issue"@,
        }
    }

    /// Whether an order in this status holds stock in reserve.
    pub open spec fn reserves(self) -> bool {
        self == WorkOrderStatus::Scheduled || self == WorkOrderStatus::InProgress
    }

    /// Whether entering the status needs a mileage: `Completed`, and
    /// `Delivered`, with which a driver closes an order.
    pub open spec fn needs_mileage(self) -> bool {
        self == WorkOrderStatus::Completed || self == WorkOrderStatus::Delivered
    }

    /// Whether a driver-capable actor may move an order into the status.
    pub open spec fn open_to_drivers(self) -> bool {
        self == WorkOrderStatus::InProgress || self == WorkOrderStatus::Delivered
            || self == WorkOrderStatus::Completed || self == WorkOrderStatus::Issue
    }

    pub fn as_str(&self) -> (name: &'static str)
        ensures
            name@ == self.name(),
    {
        match self {
            WorkOrderStatus::Draft => "draft",
            WorkOrderStatus::Scheduled => "scheduled",
            WorkOrderStatus::InProgress => "in_progress",
            WorkOrderStatus::Completed => "completed",
            WorkOrderStatus::Cancelled => "cancelled",
            WorkOrderStatus::Delivered => "delivered",
            WorkOrderStatus::Issue => "issue",
        }
    }

    /// The status that a name in lowercase stands for; `None` for any other text.
    pub fn from_lowercase(lower: &str) -> (status: Option<WorkOrderStatus>)
        ensures
            status == status_named(lower@),
    {
        if str_eq(lower, "draft") {
            Some(WorkOrderStatus::Draft)
        } else if str_eq(lower, "scheduled") {
            Some(WorkOrderStatus::Scheduled)
        } else if str_eq(lower, "in_progress") {
            Some(WorkOrderStatus::InProgress)
        } else if str_eq(lower, "completed") {
            Some(WorkOrderStatus::Completed)
        } else if str_eq(lower, "cancelled") {
            Some(WorkOrderStatus::Cancelled)
        } else if str_eq(lower, "delivered") {
            Some(WorkOrderStatus::Delivered)
        } else if str_eq(lower, "issue") {
            Some(WorkOrderStatus::Issue)
        } else {
            None
        }
    }

    /// The status that a name stands for, whatever its case.
    pub fn parse(text: &str) -> (status: Option<WorkOrderStatus>)
        ensures
            status == status_named(lowercase(text@)),
    {
        let lower = to_lowercase(text);
        WorkOrderStatus::from_lowercase(lower.as_str())
    }

    pub fn is_reserving(&self) -> (held: bool)
        ensures
            held == self.reserves(),
    {
        match self {
            WorkOrderStatus::Scheduled | WorkOrderStatus::InProgress => true,
            _ => false,
        }
    }

    pub fn requires_mileage(&self) -> (needed: bool)
        ensures
            needed == self.needs_mileage(),
    {
        match self {
            WorkOrderStatus::Completed | WorkOrderStatus::Delivered => true,
            _ => false,
        }
    }

    pub fn allowed_for_driver(&self) -> (allowed: bool)
        ensures
            allowed == self.open_to_drivers(),
    {
        match self {
            WorkOrderStatus::InProgress | WorkOrderStatus::Delivered | WorkOrderStatus::Completed
            | WorkOrderStatus::Issue => true,
            _ => false,
        }
    }
}

/// Every status is found again from its stored name, and no two statuses share
/// a name.
pub proof fn lemma_status_name_round_trip(status: WorkOrderStatus)
    ensures
        status_named(status.name()) == Some(status),
{
    reveal_strlit("draft");
    reveal_strlit("scheduled");
    reveal_strlit("in_progress");
    reveal_strlit("completed");
    reveal_strlit("cancelled");
    reveal_strlit("delivered");
    reveal_strlit("issue");
    assert("draft"@.len() == 5);
    assert("scheduled"@.len() == 9);
    assert("in_progress"@.len() == 11);
    assert("completed"@[1] == 'o');
    assert("cancelled"@[1] == 'a');
    assert("delivered"@[1] == 'e');
    assert("issue"@[0] == 'i');
    assert("draft"@[0] == 'd');
}

} // verus!
