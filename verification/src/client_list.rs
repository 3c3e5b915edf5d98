//! What an actor is shown of the clients: the rows they may see, with the
//! fields they may not see taken out.

use vstd::prelude::*;
use crate::assignees::{assignees_include, is_assigned};
use crate::audit::{event_row, AuditLog};
use crate::order_list::{hidden, hidden_text};
use crate::role::{can_see_protected, flag_or_false, flag_value, is_limited_to_assigned,
    normalize_role, role_named, role_text, sees_only_assigned, sees_protected, username_or_empty,
    username_text, UserRole};
use crate::text::{opt_text, str_eq};

verus! {

/// A client as it is listed. For an actor limited to their assignments every
/// address field is absent; for one who may not read addresses every address
/// field holds the text `Hidden`, whether anything is on record or not.
#[derive(Clone, Debug, PartialEq, Eq)]
pub struct ClientRow {
    pub id: String,
    pub name: String,
    pub email: Option<String>,
    pub telephone: Option<String>,
    pub approval_status: String,
    pub date_of_onboarding: Option<String>,
    pub how_did_they_hear_about_us: Option<String>,
    pub referring_agency: Option<String>,
    pub denial_reason: Option<String>,
    pub physical_address_line1: Option<String>,
    pub physical_address_line2: Option<String>,
    pub physical_address_city: Option<String>,
    pub physical_address_state: Option<String>,
    pub physical_address_postal_code: Option<String>,
    pub mailing_address_line1: Option<String>,
    pub mailing_address_line2: Option<String>,
    pub mailing_address_city: Option<String>,
    pub mailing_address_state: Option<String>,
    pub mailing_address_postal_code: Option<String>,
    pub gate_combo: Option<String>,
    pub notes: Option<String>,
    pub wood_size_label: Option<String>,
    pub wood_size_other: Option<String>,
    pub directions: Option<String>,
    pub created_at: String,
    pub default_mileage: Option<i64>,
}

/// What a `ClientRow` says.
pub struct ClientRowView {
    pub id: Seq<char>,
    pub name: Seq<char>,
    pub email: Option<Seq<char>>,
    pub telephone: Option<Seq<char>>,
    pub approval_status: Seq<char>,
    pub date_of_onboarding: Option<Seq<char>>,
    pub how_did_they_hear_about_us: Option<Seq<char>>,
    pub referring_agency: Option<Seq<char>>,
    pub denial_reason: Option<Seq<char>>,
    pub physical_address_line1: Option<Seq<char>>,
    pub physical_address_line2: Option<Seq<char>>,
    pub physical_address_city: Option<Seq<char>>,
    pub physical_address_state: Option<Seq<char>>,
    pub physical_address_postal_code: Option<Seq<char>>,
    pub mailing_address_line1: Option<Seq<char>>,
    pub mailing_address_line2: Option<Seq<char>>,
    pub mailing_address_city: Option<Seq<char>>,
    pub mailing_address_state: Option<Seq<char>>,
    pub mailing_address_postal_code: Option<Seq<char>>,
    pub gate_combo: Option<Seq<char>>,
    pub notes: Option<Seq<char>>,
    pub wood_size_label: Option<Seq<char>>,
    pub wood_size_other: Option<Seq<char>>,
    pub directions: Option<Seq<char>>,
    pub created_at: Seq<char>,
    pub default_mileage: Option<i64>,
}

impl View for ClientRow {
    type V = ClientRowView;

    open spec fn view(&self) -> ClientRowView {
        ClientRowView {
            id: self.id@,
            name: self.name@,
            email: opt_text(self.email),
            telephone: opt_text(self.telephone),
            approval_status: self.approval_status@,
            date_of_onboarding: opt_text(self.date_of_onboarding),
            how_did_they_hear_about_us: opt_text(self.how_did_they_hear_about_us),
            referring_agency: opt_text(self.referring_agency),
            denial_reason: opt_text(self.denial_reason),
            physical_address_line1: opt_text(self.physical_address_line1),
            physical_address_line2: opt_text(self.physical_address_line2),
            physical_address_city: opt_text(self.physical_address_city),
            physical_address_state: opt_text(self.physical_address_state),
            physical_address_postal_code: opt_text(self.physical_address_postal_code),
            mailing_address_line1: opt_text(self.mailing_address_line1),
            mailing_address_line2: opt_text(self.mailing_address_line2),
            mailing_address_city: opt_text(self.mailing_address_city),
            mailing_address_state: opt_text(self.mailing_address_state),
            mailing_address_postal_code: opt_text(self.mailing_address_postal_code),
            gate_combo: opt_text(self.gate_combo),
            notes: opt_text(self.notes),
            wood_size_label: opt_text(self.wood_size_label),
            wood_size_other: opt_text(self.wood_size_other),
            directions: opt_text(self.directions),
            created_at: self.created_at@,
            default_mileage: self.default_mileage,
        }
    }
}
/// The client of a work order and the people assigned to the order.
#[derive(Clone, Debug, PartialEq, Eq)]
pub struct ClientAssignment {
    pub client_id: String,
    pub assignees_json: Option<String>,
}

/// What a `ClientAssignment` says.
pub struct ClientAssignmentView {
    pub client_id: Seq<char>,
    pub assignees_json: Option<Seq<char>>,
}

impl View for ClientAssignment {
    type V = ClientAssignmentView;

    open spec fn view(&self) -> ClientAssignmentView {
        ClientAssignmentView {
            client_id: self.client_id@,
            assignees_json: opt_text(self.assignees_json),
        }
    }
}

/// What the assignments say, one by one.
pub open spec fn assignment_views(assignments: Seq<ClientAssignment>) -> Seq<ClientAssignmentView> {
    Seq::new(assignments.len(), |i: int| assignments[i]@)
}

/// Whether the assignment ties the user to the client: it names the client,
/// and its assignees name the user.
pub open spec fn ties(assignment: ClientAssignmentView, client_id: Seq<char>, username: Seq<char>) -> bool {
    &&& assignment.client_id.len() > 0
    &&& assignment.client_id == client_id
    &&& is_assigned(assignment.assignees_json, username)
}

/// Whether some work order of the client is assigned to the user.
pub open spec fn serves_client(
    assignments: Seq<ClientAssignmentView>,
    client_id: Seq<char>,
    username: Seq<char>,
) -> bool {
    exists|i: int| 0 <= i < assignments.len() && ties(#[trigger] assignments[i], client_id, username)
}

/// Whether the actor is shown the client at all: an actor limited to their
/// own assignments sees a client only if they are assigned to one of the
/// client's work orders.
pub open spec fn client_visible(
    row: ClientRowView,
    assignments: Seq<ClientAssignmentView>,
    role: Option<UserRole>,
    username: Seq<char>,
    driver_capable: bool,
) -> bool {
    sees_only_assigned(role, driver_capable) ==> serves_client(assignments, row.id, username)
}

/// The client without gate code, notes and address, which a delivery takes
/// from the work order. The whole address goes: every field of the physical
/// and of the mailing address.
pub open spec fn client_for_driver(row: ClientRowView) -> ClientRowView {
    ClientRowView {
        gate_combo: None,
        notes: None,
        physical_address_line1: None,
        physical_address_line2: None,
        physical_address_city: None,
        physical_address_state: None,
        physical_address_postal_code: None,
        mailing_address_line1: None,
        mailing_address_line2: None,
        mailing_address_city: None,
        mailing_address_state: None,
        mailing_address_postal_code: None,
        ..row
    }
}

/// The client without telephone, gate code, notes and address.
pub open spec fn client_for_volunteer(row: ClientRowView) -> ClientRowView {
    ClientRowView { telephone: None, ..client_for_driver(row) }
}

/// The client without email, telephone and gate code, and with
/// `hidden_text` in every field of the physical and of the mailing address,
/// whether the field held anything or not.
pub open spec fn client_masked(row: ClientRowView) -> ClientRowView {
    ClientRowView {
        email: None,
        telephone: None,
        gate_combo: None,
        physical_address_line1: Some(hidden_text()),
        physical_address_line2: Some(hidden_text()),
        physical_address_city: Some(hidden_text()),
        physical_address_state: Some(hidden_text()),
        physical_address_postal_code: Some(hidden_text()),
        mailing_address_line1: Some(hidden_text()),
        mailing_address_line2: Some(hidden_text()),
        mailing_address_city: Some(hidden_text()),
        mailing_address_state: Some(hidden_text()),
        mailing_address_postal_code: Some(hidden_text()),
        ..row
    }
}

/// Whether the row shows nothing of an address.
pub open spec fn shows_no_address(row: ClientRowView) -> bool {
    &&& row.physical_address_line1 is None
    &&& row.physical_address_line2 is None
    &&& row.physical_address_city is None
    &&& row.physical_address_state is None
    &&& row.physical_address_postal_code is None
    &&& row.mailing_address_line1 is None
    &&& row.mailing_address_line2 is None
    &&& row.mailing_address_city is None
    &&& row.mailing_address_state is None
    &&& row.mailing_address_postal_code is None
}

/// Whether every field of the row's addresses holds `hidden_text`.
pub open spec fn shows_hidden_address(row: ClientRowView) -> bool {
    &&& row.physical_address_line1 == Some(hidden_text())
    &&& row.physical_address_line2 == Some(hidden_text())
    &&& row.physical_address_city == Some(hidden_text())
    &&& row.physical_address_state == Some(hidden_text())
    &&& row.physical_address_postal_code == Some(hidden_text())
    &&& row.mailing_address_line1 == Some(hidden_text())
    &&& row.mailing_address_line2 == Some(hidden_text())
    &&& row.mailing_address_city == Some(hidden_text())
    &&& row.mailing_address_state == Some(hidden_text())
    &&& row.mailing_address_postal_code == Some(hidden_text())
}

/// The client as the actor is shown it.
pub open spec fn client_shown(
    row: ClientRowView,
    role: Option<UserRole>,
    hipaa_certified: bool,
    driver_capable: bool,
) -> ClientRowView {
    if sees_only_assigned(role, driver_capable) {
        let row = if driver_capable {
            client_for_driver(row)
        } else {
            row
        };
        if role == Some(UserRole::Volunteer) {
            client_for_volunteer(row)
        } else {
            row
        }
    } else if sees_protected(role, hipaa_certified) {
        row
    } else {
        client_masked(row)
    }
}

/// The clients as the actor is shown them: the visible ones, in their order,
/// each as `client_shown` gives it.
pub open spec fn clients_shown(
    rows: Seq<ClientRowView>,
    assignments: Seq<ClientAssignmentView>,
    role: Option<UserRole>,
    username: Seq<char>,
    hipaa_certified: bool,
    driver_capable: bool,
) -> Seq<ClientRowView>
    decreases rows.len(),
{
    if rows.len() == 0 {
        Seq::empty()
    } else {
        let before = clients_shown(
            rows.drop_last(),
            assignments,
            role,
            username,
            hipaa_certified,
            driver_capable,
        );
        if client_visible(rows.last(), assignments, role, username, driver_capable) {
            before.push(client_shown(rows.last(), role, hipaa_certified, driver_capable))
        } else {
            before
        }
    }
}

/// What the rows say, one by one.
pub open spec fn client_views(rows: Seq<ClientRow>) -> Seq<ClientRowView> {
    Seq::new(rows.len(), |i: int| rows[i]@)
}

/// Whether some work order of the client is assigned to the user.
pub fn is_serving_client(assignments: &Vec<ClientAssignment>, client_id: &str, username: &str) -> (found: bool)
    ensures
        found == serves_client(assignment_views(assignments@), client_id@, username@),
{
    let mut i: usize = 0;
    while i < assignments.len()
        invariant
            i <= assignments.len(),
            forall|j: int|
                0 <= j < i ==> !ties(#[trigger] assignment_views(assignments@)[j], client_id@, username@),
        decreases assignments.len() - i,
    {
        let assignment = &assignments[i];
        assert(assignment_views(assignments@)[i as int] == assignment@);
        if assignment.client_id.as_str().unicode_len() > 0 && str_eq(
            assignment.client_id.as_str(),
            client_id,
        ) && assignees_include(&assignment.assignees_json, username) {
            return true;
        }
        i += 1;
    }
    false
}

/// The client as the actor is shown it (see `client_shown`).
pub fn project_client(
    row: ClientRow,
    role: Option<UserRole>,
    hipaa_certified: bool,
    driver_capable: bool,
) -> (shown: ClientRow)
    ensures
        shown@ == client_shown(row@, role, hipaa_certified, driver_capable),
{
    let mut shown = row;
    if is_limited_to_assigned(role, driver_capable) {
        let volunteer: bool = match role {
            Some(UserRole::Volunteer) => true,
            _ => false,
        };
        if driver_capable || volunteer {
            shown.gate_combo = None;
            shown.notes = None;
            shown.physical_address_line1 = None;
            shown.physical_address_line2 = None;
            shown.physical_address_city = None;
            shown.physical_address_state = None;
            shown.physical_address_postal_code = None;
            shown.mailing_address_line1 = None;
            shown.mailing_address_line2 = None;
            shown.mailing_address_city = None;
            shown.mailing_address_state = None;
            shown.mailing_address_postal_code = None;
        }
        if volunteer {
            shown.telephone = None;
        }
    } else if !can_see_protected(role, hipaa_certified) {
        shown.email = None;
        shown.telephone = None;
        shown.gate_combo = None;
        shown.physical_address_line1 = hidden();
        shown.physical_address_line2 = hidden();
        shown.physical_address_city = hidden();
        shown.physical_address_state = hidden();
        shown.physical_address_postal_code = hidden();
        shown.mailing_address_line1 = hidden();
        shown.mailing_address_line2 = hidden();
        shown.mailing_address_city = hidden();
        shown.mailing_address_state = hidden();
        shown.mailing_address_postal_code = hidden();
    }
    shown
}

/// The clients as the actor is shown them (see `clients_shown`).
/// `assignments` holds, for each work order that has a client, the client and
/// the order's assignees.
pub fn project_clients(
    rows: Vec<ClientRow>,
    assignments: &Vec<ClientAssignment>,
    role: Option<UserRole>,
    username: &str,
    hipaa_certified: bool,
    driver_capable: bool,
) -> (shown: Vec<ClientRow>)
    ensures
        client_views(shown@) == clients_shown(
            client_views(rows@),
            assignment_views(assignments@),
            role,
            username@,
            hipaa_certified,
            driver_capable,
        ),
{
    let limited: bool = is_limited_to_assigned(role, driver_capable);
    let ghost all = client_views(rows@);
    let ghost ties_known = assignment_views(assignments@);
    let mut shown: Vec<ClientRow> = Vec::new();
    assert(all.take(0) =~= Seq::<ClientRowView>::empty());
    assert(client_views(shown@) =~= Seq::<ClientRowView>::empty());
    for row in it: rows
        invariant
            it.seq() == rows@,
            all == client_views(rows@),
            ties_known == assignment_views(assignments@),
            limited == sees_only_assigned(role, driver_capable),
            client_views(shown@) == clients_shown(
                all.take(it.index() as int),
                ties_known,
                role,
                username@,
                hipaa_certified,
                driver_capable,
            ),
    {
        let ghost i = it.index() as int;
        let ghost before = client_views(shown@);
        assert(all.take(i + 1).drop_last() =~= all.take(i));
        assert(all.take(i + 1).last() == row@);
        let visible: bool = !limited || is_serving_client(assignments, row.id.as_str(), username);
        if visible {
            let ghost seen = row@;
            shown.push(project_client(row, role, hipaa_certified, driver_capable));
            assert(client_views(shown@) =~= before.push(
                client_shown(seen, role, hipaa_certified, driver_capable),
            ));
        }
    }
    assert(all.take(rows@.len() as int) =~= all);
    shown
}

/// Lists the clients for an actor: notes the listing in the audit log, under
/// the actor's role, and gives the clients as the actor is shown them. A role
/// that is not given counts as `admin`, a name that is not given as the empty
/// name, a flag that is not given as `false`.
pub fn list_clients(
    rows: Vec<ClientRow>,
    assignments: &Vec<ClientAssignment>,
    role: Option<String>,
    username: Option<String>,
    hipaa_certified: Option<bool>,
    is_driver: Option<bool>,
    log: &mut AuditLog,
) -> (shown: Vec<ClientRow>)
    ensures
        client_views(shown@) == clients_shown(
            client_views(rows@),
            assignment_views(assignments@),
            role_named(role_text(opt_text(role))),
            username_text(opt_text(username)),
            flag_value(hipaa_certified),
            flag_value(is_driver),
        ),
        final(log)@ == old(log)@.push(
            event_row("list_clients"@, role_text(opt_text(role)), "unknown"@),
        ),
        old(log).well_formed() ==> final(log).well_formed(),
{
    let role_name = normalize_role(&role);
    let name = username_or_empty(&username);
    log.record_event("list_clients", role_name.as_str(), "unknown");
    project_clients(
        rows,
        assignments,
        UserRole::from_lowercase(role_name.as_str()),
        name.as_str(),
        flag_or_false(hipaa_certified),
        flag_or_false(is_driver),
    )
}

/// An admin, and a lead with a HIPAA certification, who are no drivers are
/// shown every client as it is.
pub proof fn lemma_privileged_see_clients_unchanged(
    rows: Seq<ClientRowView>,
    assignments: Seq<ClientAssignmentView>,
    role: Option<UserRole>,
    username: Seq<char>,
    hipaa_certified: bool,
)
    requires
        sees_protected(role, hipaa_certified),
    ensures
        clients_shown(rows, assignments, role, username, hipaa_certified, false) == rows,
    decreases rows.len(),
{
    if rows.len() > 0 {
        lemma_privileged_see_clients_unchanged(
            rows.drop_last(),
            assignments,
            role,
            username,
            hipaa_certified,
        );
        assert(rows.drop_last().push(rows.last()) =~= rows);
    }
}

/// An actor who is neither limited to their assignments nor cleared for
/// protected information is shown every client, with every field of its
/// addresses hidden and without email, telephone and gate code.
pub proof fn lemma_unprivileged_see_clients_masked(
    rows: Seq<ClientRowView>,
    assignments: Seq<ClientAssignmentView>,
    role: Option<UserRole>,
    username: Seq<char>,
    hipaa_certified: bool,
)
    requires
        !sees_only_assigned(role, false),
        !sees_protected(role, hipaa_certified),
    ensures
        clients_shown(rows, assignments, role, username, hipaa_certified, false).len()
            == rows.len(),
        forall|k: int|
            0 <= k < rows.len() ==> #[trigger] clients_shown(
                rows,
                assignments,
                role,
                username,
                hipaa_certified,
                false,
            )[k] == client_masked(rows[k]),
        forall|k: int|
            0 <= k < rows.len() ==> {
                let row = #[trigger] clients_shown(
                    rows,
                    assignments,
                    role,
                    username,
                    hipaa_certified,
                    false,
                )[k];
                &&& shows_hidden_address(row)
                &&& row.email is None
                &&& row.telephone is None
                &&& row.gate_combo is None
            },
    decreases rows.len(),
{
    if rows.len() > 0 {
        lemma_unprivileged_see_clients_masked(
            rows.drop_last(),
            assignments,
            role,
            username,
            hipaa_certified,
        );
    }
}

/// An actor limited to their assignments is shown no client's gate code,
/// notes or address, if they are a driver or a volunteer.
pub proof fn lemma_assigned_see_no_client_address(
    rows: Seq<ClientRowView>,
    assignments: Seq<ClientAssignmentView>,
    role: Option<UserRole>,
    username: Seq<char>,
    hipaa_certified: bool,
    driver_capable: bool,
)
    requires
        sees_only_assigned(role, driver_capable),
    ensures
        forall|k: int|
            0 <= k < clients_shown(
                rows,
                assignments,
                role,
                username,
                hipaa_certified,
                driver_capable,
            ).len() ==> {
                let row = #[trigger] clients_shown(
                    rows,
                    assignments,
                    role,
                    username,
                    hipaa_certified,
                    driver_capable,
                )[k];
                &&& serves_client(assignments, row.id, username)
                &&& row.gate_combo is None
                &&& row.notes is None
                &&& shows_no_address(row)
            },
    decreases rows.len(),
{
    if rows.len() > 0 {
        lemma_assigned_see_no_client_address(
            rows.drop_last(),
            assignments,
            role,
            username,
            hipaa_certified,
            driver_capable,
        );
    }
}

} // verus!
