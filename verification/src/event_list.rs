//! What an actor is shown of the delivery calendar.

use vstd::prelude::*;
use crate::assignees::{assignees_include, is_assigned};
use crate::audit::{event_row, AuditLog};
use crate::order_list::hidden_text;
use crate::role::{can_see_protected, flag_or_false, flag_value, is_limited_to_assigned,
    normalize_role, role_named, role_text, sees_only_assigned, sees_protected, username_or_empty,
    username_text, UserRole};
use crate::text::opt_text;

verus! {

/// An entry of the delivery calendar as it is listed.
#[derive(Clone, Debug, PartialEq, Eq)]
pub struct DeliveryEventRow {
    pub id: String,
    pub title: String,
    pub event_type: String,
    pub start_date: String,
    pub end_date: Option<String>,
    pub work_order_id: Option<String>,
    pub color_code: Option<String>,
    pub assigned_user_ids_json: Option<String>,
}

/// What a `DeliveryEventRow` says.
pub struct DeliveryEventRowView {
    pub id: Seq<char>,
    pub title: Seq<char>,
    pub event_type: Seq<char>,
    pub start_date: Seq<char>,
    pub end_date: Option<Seq<char>>,
    pub work_order_id: Option<Seq<char>>,
    pub color_code: Option<Seq<char>>,
    pub assigned_user_ids_json: Option<Seq<char>>,
}

impl View for DeliveryEventRow {
    type V = DeliveryEventRowView;

    open spec fn view(&self) -> DeliveryEventRowView {
        DeliveryEventRowView {
            id: self.id@,
            title: self.title@,
            event_type: self.event_type@,
            start_date: self.start_date@,
            end_date: opt_text(self.end_date),
            work_order_id: opt_text(self.work_order_id),
            color_code: opt_text(self.color_code),
            assigned_user_ids_json: opt_text(self.assigned_user_ids_json),
        }
    }
}
/// Whether the actor is shown the entry at all: an actor limited to their own
/// assignments sees an entry only if its list of assigned users names them.
pub open spec fn event_visible(
    row: DeliveryEventRowView,
    role: Option<UserRole>,
    username: Seq<char>,
    driver_capable: bool,
) -> bool {
    sees_only_assigned(role, driver_capable) ==> is_assigned(row.assigned_user_ids_json, username)
}

/// The entry as the actor is shown it: an actor who is neither limited to
/// their assignments nor cleared for protected information reads
/// `hidden_text` in place of the title.
pub open spec fn event_shown(
    row: DeliveryEventRowView,
    role: Option<UserRole>,
    hipaa_certified: bool,
    driver_capable: bool,
) -> DeliveryEventRowView {
    if sees_only_assigned(role, driver_capable) || sees_protected(role, hipaa_certified) {
        row
    } else {
        DeliveryEventRowView { title: hidden_text(), ..row }
    }
}

/// The entries as the actor is shown them: the visible ones, in their order,
/// each as `event_shown` gives it.
pub open spec fn events_shown(
    rows: Seq<DeliveryEventRowView>,
    role: Option<UserRole>,
    username: Seq<char>,
    hipaa_certified: bool,
    driver_capable: bool,
) -> Seq<DeliveryEventRowView>
    decreases rows.len(),
{
    if rows.len() == 0 {
        Seq::empty()
    } else {
        let before = events_shown(rows.drop_last(), role, username, hipaa_certified, driver_capable);
        if event_visible(rows.last(), role, username, driver_capable) {
            before.push(event_shown(rows.last(), role, hipaa_certified, driver_capable))
        } else {
            before
        }
    }
}

/// What the rows say, one by one.
pub open spec fn event_views(rows: Seq<DeliveryEventRow>) -> Seq<DeliveryEventRowView> {
    Seq::new(rows.len(), |i: int| rows[i]@)
}

/// The entry as the actor is shown it (see `event_shown`).
pub fn project_delivery_event(
    row: DeliveryEventRow,
    role: Option<UserRole>,
    hipaa_certified: bool,
    driver_capable: bool,
) -> (shown: DeliveryEventRow)
    ensures
        shown@ == event_shown(row@, role, hipaa_certified, driver_capable),
{
    let mut shown = row;
    if !is_limited_to_assigned(role, driver_capable) && !can_see_protected(role, hipaa_certified) {
        shown.title = "Hidden".to_owned();
    }
    shown
}

/// The entries as the actor is shown them (see `events_shown`).
pub fn project_delivery_events(
    rows: Vec<DeliveryEventRow>,
    role: Option<UserRole>,
    username: &str,
    hipaa_certified: bool,
    driver_capable: bool,
) -> (shown: Vec<DeliveryEventRow>)
    ensures
        event_views(shown@) == events_shown(
            event_views(rows@),
            role,
            username@,
            hipaa_certified,
            driver_capable,
        ),
{
    let limited: bool = is_limited_to_assigned(role, driver_capable);
    let ghost all = event_views(rows@);
    let mut shown: Vec<DeliveryEventRow> = Vec::new();
    assert(all.take(0) =~= Seq::<DeliveryEventRowView>::empty());
    assert(event_views(shown@) =~= Seq::<DeliveryEventRowView>::empty());
    for row in it: rows
        invariant
            it.seq() == rows@,
            all == event_views(rows@),
            limited == sees_only_assigned(role, driver_capable),
            event_views(shown@) == events_shown(
                all.take(it.index() as int),
                role,
                username@,
                hipaa_certified,
                driver_capable,
            ),
    {
        let ghost i = it.index() as int;
        let ghost before = event_views(shown@);
        assert(all.take(i + 1).drop_last() =~= all.take(i));
        assert(all.take(i + 1).last() == row@);
        let visible: bool = !limited || assignees_include(&row.assigned_user_ids_json, username);
        if visible {
            let ghost seen = row@;
            shown.push(project_delivery_event(row, role, hipaa_certified, driver_capable));
            assert(event_views(shown@) =~= before.push(
                event_shown(seen, role, hipaa_certified, driver_capable),
            ));
        }
    }
    assert(all.take(rows@.len() as int) =~= all);
    shown
}

/// Lists the delivery calendar for an actor: notes the listing in the audit
/// log, under the actor's role and name, and gives the entries as the actor is
/// shown them. A role that is not given counts as `admin`, a name that is not
/// given as the empty name, a flag that is not given as `false`.
pub fn list_delivery_events(
    rows: Vec<DeliveryEventRow>,
    role: Option<String>,
    username: Option<String>,
    hipaa_certified: Option<bool>,
    is_driver: Option<bool>,
    log: &mut AuditLog,
) -> (shown: Vec<DeliveryEventRow>)
    ensures
        event_views(shown@) == events_shown(
            event_views(rows@),
            role_named(role_text(opt_text(role))),
            username_text(opt_text(username)),
            flag_value(hipaa_certified),
            flag_value(is_driver),
        ),
        final(log)@ == old(log)@.push(
            event_row(
                "list_delivery_events"@,
                role_text(opt_text(role)),
                username_text(opt_text(username)),
            ),
        ),
        old(log).well_formed() ==> final(log).well_formed(),
{
    let role_name = normalize_role(&role);
    let name = username_or_empty(&username);
    log.record_event("list_delivery_events", role_name.as_str(), name.as_str());
    project_delivery_events(
        rows,
        UserRole::from_lowercase(role_name.as_str()),
        name.as_str(),
        flag_or_false(hipaa_certified),
        flag_or_false(is_driver),
    )
}

} // verus!
