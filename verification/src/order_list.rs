//! What an actor is shown of the work orders: the rows they may see, with the
//! fields they may not see taken out.

use vstd::prelude::*;
use crate::assignees::{assignees_include, is_assigned};
use crate::audit::{event_row, AuditLog};
use crate::role::{can_see_protected, flag_or_false, flag_value, is_limited_to_assigned,
    normalize_role, role_named, role_text, sees_only_assigned, sees_protected, username_or_empty,
    username_text, UserRole};
use crate::text::opt_text;

verus! {

/// A work order as it is listed. Quantities and mileages are whole
/// thousandths.
#[derive(Clone, Debug, PartialEq, Eq)]
pub struct WorkOrderRow {
    pub id: String,
    pub client_name: String,
    pub status: String,
    pub scheduled_date: Option<String>,
    pub gate_combo: Option<String>,
    pub notes: Option<String>,
    pub telephone: Option<String>,
    pub physical_address_line1: Option<String>,
    pub physical_address_city: Option<String>,
    pub physical_address_state: Option<String>,
    pub physical_address_postal_code: Option<String>,
    pub mileage: Option<i64>,
    pub wood_size_label: Option<String>,
    pub wood_size_other: Option<String>,
    pub delivery_size_label: Option<String>,
    pub delivery_size_cords: Option<i64>,
    pub pickup_delivery_type: Option<String>,
    pub pickup_quantity_cords: Option<i64>,
    pub pickup_length: Option<i64>,
    pub pickup_width: Option<i64>,
    pub pickup_height: Option<i64>,
    pub pickup_units: Option<String>,
    pub assignees_json: Option<String>,
    pub created_by_display: Option<String>,
    pub created_at: Option<String>,
    pub paired_order_id: Option<String>,
    pub client_id: Option<String>,
}

/// What a `WorkOrderRow` says.
pub struct WorkOrderRowView {
    pub id: Seq<char>,
    pub client_name: Seq<char>,
    pub status: Seq<char>,
    pub scheduled_date: Option<Seq<char>>,
    pub gate_combo: Option<Seq<char>>,
    pub notes: Option<Seq<char>>,
    pub telephone: Option<Seq<char>>,
    pub physical_address_line1: Option<Seq<char>>,
    pub physical_address_city: Option<Seq<char>>,
    pub physical_address_state: Option<Seq<char>>,
    pub physical_address_postal_code: Option<Seq<char>>,
    pub mileage: Option<i64>,
    pub wood_size_label: Option<Seq<char>>,
    pub wood_size_other: Option<Seq<char>>,
    pub delivery_size_label: Option<Seq<char>>,
    pub delivery_size_cords: Option<i64>,
    pub pickup_delivery_type: Option<Seq<char>>,
    pub pickup_quantity_cords: Option<i64>,
    pub pickup_length: Option<i64>,
    pub pickup_width: Option<i64>,
    pub pickup_height: Option<i64>,
    pub pickup_units: Option<Seq<char>>,
    pub assignees_json: Option<Seq<char>>,
    pub created_by_display: Option<Seq<char>>,
    pub created_at: Option<Seq<char>>,
    pub paired_order_id: Option<Seq<char>>,
    pub client_id: Option<Seq<char>>,
}

impl View for WorkOrderRow {
    type V = WorkOrderRowView;

    open spec fn view(&self) -> WorkOrderRowView {
        WorkOrderRowView {
            id: self.id@,
            client_name: self.client_name@,
            status: self.status@,
            scheduled_date: opt_text(self.scheduled_date),
            gate_combo: opt_text(self.gate_combo),
            notes: opt_text(self.notes),
            telephone: opt_text(self.telephone),
            physical_address_line1: opt_text(self.physical_address_line1),
            physical_address_city: opt_text(self.physical_address_city),
            physical_address_state: opt_text(self.physical_address_state),
            physical_address_postal_code: opt_text(self.physical_address_postal_code),
            mileage: self.mileage,
            wood_size_label: opt_text(self.wood_size_label),
            wood_size_other: opt_text(self.wood_size_other),
            delivery_size_label: opt_text(self.delivery_size_label),
            delivery_size_cords: self.delivery_size_cords,
            pickup_delivery_type: opt_text(self.pickup_delivery_type),
            pickup_quantity_cords: self.pickup_quantity_cords,
            pickup_length: self.pickup_length,
            pickup_width: self.pickup_width,
            pickup_height: self.pickup_height,
            pickup_units: opt_text(self.pickup_units),
            assignees_json: opt_text(self.assignees_json),
            created_by_display: opt_text(self.created_by_display),
            created_at: opt_text(self.created_at),
            paired_order_id: opt_text(self.paired_order_id),
            client_id: opt_text(self.client_id),
        }
    }
}
/// The text that stands in place of an address that the actor may not see.
pub open spec fn hidden_text() -> Seq<char> {
    "Hidden"@
}

/// Whether the actor is shown the row at all: an actor limited to their own
/// assignments sees a row only if its list of assignees names them.
pub open spec fn order_visible(
    row: WorkOrderRowView,
    role: Option<UserRole>,
    username: Seq<char>,
    driver_capable: bool,
) -> bool {
    sees_only_assigned(role, driver_capable) ==> is_assigned(row.assignees_json, username)
}

/// The row without gate code and notes, which a delivery does not need.
pub open spec fn order_for_driver(row: WorkOrderRowView) -> WorkOrderRowView {
    WorkOrderRowView { gate_combo: None, notes: None, ..row }
}

/// The row without telephone, gate code, notes and address.
pub open spec fn order_for_volunteer(row: WorkOrderRowView) -> WorkOrderRowView {
    WorkOrderRowView {
        telephone: None,
        gate_combo: None,
        notes: None,
        physical_address_line1: None,
        physical_address_city: None,
        physical_address_state: None,
        physical_address_postal_code: None,
        ..row
    }
}

/// The row without telephone, gate code and notes, and with the address
/// replaced by `hidden_text`, so that a reader can tell a hidden address from
/// a missing one.
pub open spec fn order_masked(row: WorkOrderRowView) -> WorkOrderRowView {
    WorkOrderRowView {
        telephone: None,
        gate_combo: None,
        notes: None,
        physical_address_line1: Some(hidden_text()),
        physical_address_city: Some(hidden_text()),
        physical_address_state: Some(hidden_text()),
        physical_address_postal_code: Some(hidden_text()),
        ..row
    }
}

/// The row as the actor is shown it.
pub open spec fn order_shown(
    row: WorkOrderRowView,
    role: Option<UserRole>,
    hipaa_certified: bool,
    driver_capable: bool,
) -> WorkOrderRowView {
    if sees_only_assigned(role, driver_capable) {
        let row = if driver_capable {
            order_for_driver(row)
        } else {
            row
        };
        if role == Some(UserRole::Volunteer) {
            order_for_volunteer(row)
        } else {
            row
        }
    } else if sees_protected(role, hipaa_certified) {
        row
    } else {
        order_masked(row)
    }
}

/// The rows as the actor is shown them: the visible ones, in their order, each
/// as `order_shown` gives it.
pub open spec fn orders_shown(
    rows: Seq<WorkOrderRowView>,
    role: Option<UserRole>,
    username: Seq<char>,
    hipaa_certified: bool,
    driver_capable: bool,
) -> Seq<WorkOrderRowView>
    decreases rows.len(),
{
    if rows.len() == 0 {
        Seq::empty()
    } else {
        let before = orders_shown(rows.drop_last(), role, username, hipaa_certified, driver_capable);
        if order_visible(rows.last(), role, username, driver_capable) {
            before.push(order_shown(rows.last(), role, hipaa_certified, driver_capable))
        } else {
            before
        }
    }
}

/// What the rows say, one by one.
pub open spec fn order_views(rows: Seq<WorkOrderRow>) -> Seq<WorkOrderRowView> {
    Seq::new(rows.len(), |i: int| rows[i]@)
}

/// The text `Hidden`, in place of an address.
pub fn hidden() -> (text: Option<String>)
    ensures
        opt_text(text) == Some(hidden_text()),
{
    Some("Hidden".to_owned())
}

/// The row as the actor is shown it (see `order_shown`).
pub fn project_work_order(
    row: WorkOrderRow,
    role: Option<UserRole>,
    hipaa_certified: bool,
    driver_capable: bool,
) -> (shown: WorkOrderRow)
    ensures
        shown@ == order_shown(row@, role, hipaa_certified, driver_capable),
{
    let mut shown = row;
    if is_limited_to_assigned(role, driver_capable) {
        if driver_capable {
            shown.gate_combo = None;
            shown.notes = None;
        }
        let volunteer: bool = match role {
            Some(UserRole::Volunteer) => true,
            _ => false,
        };
        if volunteer {
            shown.telephone = None;
            shown.gate_combo = None;
            shown.notes = None;
            shown.physical_address_line1 = None;
            shown.physical_address_city = None;
            shown.physical_address_state = None;
            shown.physical_address_postal_code = None;
        }
    } else if !can_see_protected(role, hipaa_certified) {
        shown.telephone = None;
        shown.gate_combo = None;
        shown.notes = None;
        shown.physical_address_line1 = hidden();
        shown.physical_address_city = hidden();
        shown.physical_address_state = hidden();
        shown.physical_address_postal_code = hidden();
    }
    shown
}

/// The rows as the actor is shown them (see `orders_shown`). Nothing but the
/// result is made: the rows given are used up, and no store is touched.
pub fn project_work_orders(
    rows: Vec<WorkOrderRow>,
    role: Option<UserRole>,
    username: &str,
    hipaa_certified: bool,
    driver_capable: bool,
) -> (shown: Vec<WorkOrderRow>)
    ensures
        order_views(shown@) == orders_shown(
            order_views(rows@),
            role,
            username@,
            hipaa_certified,
            driver_capable,
        ),
{
    let limited: bool = is_limited_to_assigned(role, driver_capable);
    let ghost all = order_views(rows@);
    let mut shown: Vec<WorkOrderRow> = Vec::new();
    assert(all.take(0) =~= Seq::<WorkOrderRowView>::empty());
    assert(order_views(shown@) =~= Seq::<WorkOrderRowView>::empty());
    for row in it: rows
        invariant
            it.seq() == rows@,
            all == order_views(rows@),
            limited == sees_only_assigned(role, driver_capable),
            order_views(shown@) == orders_shown(
                all.take(it.index() as int),
                role,
                username@,
                hipaa_certified,
                driver_capable,
            ),
    {
        let ghost i = it.index() as int;
        let ghost before = order_views(shown@);
        assert(all.take(i + 1).drop_last() =~= all.take(i));
        assert(all.take(i + 1).last() == row@);
        let visible: bool = !limited || assignees_include(&row.assignees_json, username);
        if visible {
            let ghost seen = row@;
            shown.push(project_work_order(row, role, hipaa_certified, driver_capable));
            assert(order_views(shown@) =~= before.push(
                order_shown(seen, role, hipaa_certified, driver_capable),
            ));
        }
    }
    assert(all.take(rows@.len() as int) =~= all);
    shown
}

/// Lists the work orders for an actor: notes the listing in the audit log,
/// under the actor's role and name, and gives the rows as the actor is shown
/// them. A role that is not given counts as `admin`, a name that is not given
/// as the empty name, a flag that is not given as `false`.
pub fn list_work_orders(
    rows: Vec<WorkOrderRow>,
    role: Option<String>,
    username: Option<String>,
    hipaa_certified: Option<bool>,
    is_driver: Option<bool>,
    log: &mut AuditLog,
) -> (shown: Vec<WorkOrderRow>)
    ensures
        order_views(shown@) == orders_shown(
            order_views(rows@),
            role_named(role_text(opt_text(role))),
            username_text(opt_text(username)),
            flag_value(hipaa_certified),
            flag_value(is_driver),
        ),
        final(log)@ == old(log)@.push(
            event_row(
                "list_work_orders"@,
                role_text(opt_text(role)),
                username_text(opt_text(username)),
            ),
        ),
        old(log).well_formed() ==> final(log).well_formed(),
{
    let role_name = normalize_role(&role);
    let name = username_or_empty(&username);
    log.record_event("list_work_orders", role_name.as_str(), name.as_str());
    project_work_orders(
        rows,
        UserRole::from_lowercase(role_name.as_str()),
        name.as_str(),
        flag_or_false(hipaa_certified),
        flag_or_false(is_driver),
    )
}

/// Every row that is shown is a visible row of the listing, as `order_shown`
/// gives it, and the rows come in the order of the listing: row `k` of the
/// result stems from row `origin[k]`, and `origin` rises.
pub proof fn lemma_orders_shown_stem_from_visible(
    rows: Seq<WorkOrderRowView>,
    role: Option<UserRole>,
    username: Seq<char>,
    hipaa_certified: bool,
    driver_capable: bool,
) -> (origin: Seq<int>)
    ensures
        origin.len() == orders_shown(rows, role, username, hipaa_certified, driver_capable).len(),
        forall|k: int|
            0 <= k < origin.len() ==> {
                &&& 0 <= #[trigger] origin[k] < rows.len()
                &&& order_visible(rows[origin[k]], role, username, driver_capable)
                &&& orders_shown(rows, role, username, hipaa_certified, driver_capable)[k]
                    == order_shown(rows[origin[k]], role, hipaa_certified, driver_capable)
            },
        forall|j: int, k: int| 0 <= j < k < origin.len() ==> origin[j] < origin[k],
        forall|i: int|
            0 <= i < rows.len() && order_visible(#[trigger] rows[i], role, username, driver_capable)
                ==> origin.contains(i),
    decreases rows.len(),
{
    if rows.len() == 0 {
        Seq::empty()
    } else {
        let rest = rows.drop_last();
        let before = lemma_orders_shown_stem_from_visible(
            rest,
            role,
            username,
            hipaa_certified,
            driver_capable,
        );
        let last = rows.len() - 1;
        assert forall|k: int| 0 <= k < before.len() implies rest[#[trigger] before[k]] == rows[before[k]] by {}
        if order_visible(rows.last(), role, username, driver_capable) {
            let origin = before.push(last);
            assert forall|i: int|
                0 <= i < rows.len() && order_visible(
                    #[trigger] rows[i],
                    role,
                    username,
                    driver_capable,
                ) implies origin.contains(i) by {
                if i < last {
                    assert(rest[i] == rows[i]);
                    let k = choose|k: int| 0 <= k < before.len() && before[k] == i;
                    assert(origin[k] == i);
                } else {
                    assert(origin[origin.len() - 1] == i);
                }
            }
            origin
        } else {
            assert forall|i: int|
                0 <= i < rows.len() && order_visible(
                    #[trigger] rows[i],
                    role,
                    username,
                    driver_capable,
                ) implies before.contains(i) by {
                assert(rest[i] == rows[i]);
            }
            before
        }
    }
}

/// An admin, and a lead with a HIPAA certification, who are no drivers are
/// shown every row as it is.
pub proof fn lemma_privileged_see_orders_unchanged(
    rows: Seq<WorkOrderRowView>,
    role: Option<UserRole>,
    username: Seq<char>,
    hipaa_certified: bool,
)
    requires
        sees_protected(role, hipaa_certified),
    ensures
        orders_shown(rows, role, username, hipaa_certified, false) == rows,
    decreases rows.len(),
{
    if rows.len() > 0 {
        lemma_privileged_see_orders_unchanged(rows.drop_last(), role, username, hipaa_certified);
        assert(rows.drop_last().push(rows.last()) =~= rows);
    }
}

/// A driver-capable actor is shown only rows whose assignees name them, and
/// in none of them a gate code or notes.
pub proof fn lemma_driver_sees_only_assigned_orders(
    rows: Seq<WorkOrderRowView>,
    role: Option<UserRole>,
    username: Seq<char>,
    hipaa_certified: bool,
)
    ensures
        forall|k: int|
            0 <= k < orders_shown(rows, role, username, hipaa_certified, true).len() ==> {
                let row = #[trigger] orders_shown(rows, role, username, hipaa_certified, true)[k];
                &&& is_assigned(row.assignees_json, username)
                &&& row.gate_combo is None
                &&& row.notes is None
            },
    decreases rows.len(),
{
    if rows.len() > 0 {
        lemma_driver_sees_only_assigned_orders(rows.drop_last(), role, username, hipaa_certified);
    }
}

/// An actor who is neither limited to their assignments nor cleared for
/// protected information is shown every row, with the address hidden and
/// without telephone, gate code and notes.
pub proof fn lemma_unprivileged_see_orders_masked(
    rows: Seq<WorkOrderRowView>,
    role: Option<UserRole>,
    username: Seq<char>,
    hipaa_certified: bool,
)
    requires
        !sees_only_assigned(role, false),
        !sees_protected(role, hipaa_certified),
    ensures
        orders_shown(rows, role, username, hipaa_certified, false).len() == rows.len(),
        forall|k: int|
            0 <= k < rows.len() ==> #[trigger] orders_shown(
                rows,
                role,
                username,
                hipaa_certified,
                false,
            )[k] == order_masked(rows[k]),
    decreases rows.len(),
{
    if rows.len() > 0 {
        lemma_unprivileged_see_orders_masked(rows.drop_last(), role, username, hipaa_certified);
    }
}

} // verus!
