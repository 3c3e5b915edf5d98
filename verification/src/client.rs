//! The rules of client records: how a client is named, that one name has one
//! address, and which fields an update changed.

use vstd::prelude::*;
use crate::audit::{change_rows, event_row, name_or_unknown, noted_name, value_rows, AuditLog,
    AuditRow, FieldValue, ValueRow};
use crate::error::{Error, Invalid};
use crate::ident::{fresh_id, is_uuid_text};
use crate::text::{clone_opt, join_texts, eq_ignore_ascii_case, opt_text, same_ignoring_ascii_case,
    trim_text, trimmed};

verus! {

/// Whether a client may be served.
#[derive(Clone, Copy, Debug, PartialEq, Eq, Structural)]
pub enum ApprovalStatus {
    Approved,
    Denied,
    Pending,
}

impl ApprovalStatus {
    /// The name under which the status is stored.
    pub open spec fn name(self) -> Seq<char> {
        match self {
            ApprovalStatus::Approved => "approved"@,
            ApprovalStatus::Denied => "denied"@,
            ApprovalStatus::Pending => "pending"@,
        }
    }

    pub fn as_str(&self) -> (name: &'static str)
        ensures
            name@ == self.name(),
    {
        match self {
            ApprovalStatus::Approved => "approved",
            ApprovalStatus::Denied => "denied",
            ApprovalStatus::Pending => "pending",
        }
    }
}

/// The request to take a client on.
#[derive(Clone, Debug, PartialEq, Eq)]
pub struct ClientInput {
    pub client_title: Option<String>,
    pub first_name: Option<String>,
    pub last_name: Option<String>,
    pub physical_address_line1: String,
    pub physical_address_line2: Option<String>,
    pub physical_address_city: String,
    pub physical_address_state: String,
    pub physical_address_postal_code: String,
    pub mailing_address_line1: Option<String>,
    pub mailing_address_line2: Option<String>,
    pub mailing_address_city: Option<String>,
    pub mailing_address_state: Option<String>,
    pub mailing_address_postal_code: Option<String>,
    pub telephone: Option<String>,
    pub email: Option<String>,
    pub date_of_onboarding: Option<String>,
    pub how_did_they_hear_about_us: Option<String>,
    pub referring_agency: Option<String>,
    pub approval_status: Option<String>,
    pub denial_reason: Option<String>,
    pub gate_combo: Option<String>,
    pub notes: Option<String>,
    pub wood_size_label: Option<String>,
    pub wood_size_other: Option<String>,
    pub directions: Option<String>,
    pub created_by_user_id: Option<String>,
}

/// What a `ClientInput` says.
pub struct ClientInputView {
    pub client_title: Option<Seq<char>>,
    pub first_name: Option<Seq<char>>,
    pub last_name: Option<Seq<char>>,
    pub physical_address_line1: Seq<char>,
    pub physical_address_line2: Option<Seq<char>>,
    pub physical_address_city: Seq<char>,
    pub physical_address_state: Seq<char>,
    pub physical_address_postal_code: Seq<char>,
    pub mailing_address_line1: Option<Seq<char>>,
    pub mailing_address_line2: Option<Seq<char>>,
    pub mailing_address_city: Option<Seq<char>>,
    pub mailing_address_state: Option<Seq<char>>,
    pub mailing_address_postal_code: Option<Seq<char>>,
    pub telephone: Option<Seq<char>>,
    pub email: Option<Seq<char>>,
    pub date_of_onboarding: Option<Seq<char>>,
    pub how_did_they_hear_about_us: Option<Seq<char>>,
    pub referring_agency: Option<Seq<char>>,
    pub approval_status: Option<Seq<char>>,
    pub denial_reason: Option<Seq<char>>,
    pub gate_combo: Option<Seq<char>>,
    pub notes: Option<Seq<char>>,
    pub wood_size_label: Option<Seq<char>>,
    pub wood_size_other: Option<Seq<char>>,
    pub directions: Option<Seq<char>>,
    pub created_by_user_id: Option<Seq<char>>,
}

impl View for ClientInput {
    type V = ClientInputView;

    open spec fn view(&self) -> ClientInputView {
        ClientInputView {
            client_title: opt_text(self.client_title),
            first_name: opt_text(self.first_name),
            last_name: opt_text(self.last_name),
            physical_address_line1: self.physical_address_line1@,
            physical_address_line2: opt_text(self.physical_address_line2),
            physical_address_city: self.physical_address_city@,
            physical_address_state: self.physical_address_state@,
            physical_address_postal_code: self.physical_address_postal_code@,
            mailing_address_line1: opt_text(self.mailing_address_line1),
            mailing_address_line2: opt_text(self.mailing_address_line2),
            mailing_address_city: opt_text(self.mailing_address_city),
            mailing_address_state: opt_text(self.mailing_address_state),
            mailing_address_postal_code: opt_text(self.mailing_address_postal_code),
            telephone: opt_text(self.telephone),
            email: opt_text(self.email),
            date_of_onboarding: opt_text(self.date_of_onboarding),
            how_did_they_hear_about_us: opt_text(self.how_did_they_hear_about_us),
            referring_agency: opt_text(self.referring_agency),
            approval_status: opt_text(self.approval_status),
            denial_reason: opt_text(self.denial_reason),
            gate_combo: opt_text(self.gate_combo),
            notes: opt_text(self.notes),
            wood_size_label: opt_text(self.wood_size_label),
            wood_size_other: opt_text(self.wood_size_other),
            directions: opt_text(self.directions),
            created_by_user_id: opt_text(self.created_by_user_id),
        }
    }
}

/// The request to change the record of a client.
#[derive(Clone, Debug, PartialEq, Eq)]
pub struct ClientUpdateInput {
    pub id: String,
    pub client_title: Option<String>,
    pub first_name: Option<String>,
    pub last_name: Option<String>,
    pub physical_address_line1: String,
    pub physical_address_line2: Option<String>,
    pub physical_address_city: String,
    pub physical_address_state: String,
    pub physical_address_postal_code: String,
    pub mailing_address_line1: Option<String>,
    pub mailing_address_line2: Option<String>,
    pub mailing_address_city: Option<String>,
    pub mailing_address_state: Option<String>,
    pub mailing_address_postal_code: Option<String>,
    pub telephone: Option<String>,
    pub email: Option<String>,
    pub date_of_onboarding: Option<String>,
    pub how_did_they_hear_about_us: Option<String>,
    pub referring_agency: Option<String>,
    pub approval_status: Option<String>,
    pub denial_reason: Option<String>,
    pub gate_combo: Option<String>,
    pub notes: Option<String>,
    pub wood_size_label: Option<String>,
    pub wood_size_other: Option<String>,
    pub directions: Option<String>,
}

/// What a `ClientUpdateInput` says.
pub struct ClientUpdateInputView {
    pub id: Seq<char>,
    pub client_title: Option<Seq<char>>,
    pub first_name: Option<Seq<char>>,
    pub last_name: Option<Seq<char>>,
    pub physical_address_line1: Seq<char>,
    pub physical_address_line2: Option<Seq<char>>,
    pub physical_address_city: Seq<char>,
    pub physical_address_state: Seq<char>,
    pub physical_address_postal_code: Seq<char>,
    pub mailing_address_line1: Option<Seq<char>>,
    pub mailing_address_line2: Option<Seq<char>>,
    pub mailing_address_city: Option<Seq<char>>,
    pub mailing_address_state: Option<Seq<char>>,
    pub mailing_address_postal_code: Option<Seq<char>>,
    pub telephone: Option<Seq<char>>,
    pub email: Option<Seq<char>>,
    pub date_of_onboarding: Option<Seq<char>>,
    pub how_did_they_hear_about_us: Option<Seq<char>>,
    pub referring_agency: Option<Seq<char>>,
    pub approval_status: Option<Seq<char>>,
    pub denial_reason: Option<Seq<char>>,
    pub gate_combo: Option<Seq<char>>,
    pub notes: Option<Seq<char>>,
    pub wood_size_label: Option<Seq<char>>,
    pub wood_size_other: Option<Seq<char>>,
    pub directions: Option<Seq<char>>,
}

impl View for ClientUpdateInput {
    type V = ClientUpdateInputView;

    open spec fn view(&self) -> ClientUpdateInputView {
        ClientUpdateInputView {
            id: self.id@,
            client_title: opt_text(self.client_title),
            first_name: opt_text(self.first_name),
            last_name: opt_text(self.last_name),
            physical_address_line1: self.physical_address_line1@,
            physical_address_line2: opt_text(self.physical_address_line2),
            physical_address_city: self.physical_address_city@,
            physical_address_state: self.physical_address_state@,
            physical_address_postal_code: self.physical_address_postal_code@,
            mailing_address_line1: opt_text(self.mailing_address_line1),
            mailing_address_line2: opt_text(self.mailing_address_line2),
            mailing_address_city: opt_text(self.mailing_address_city),
            mailing_address_state: opt_text(self.mailing_address_state),
            mailing_address_postal_code: opt_text(self.mailing_address_postal_code),
            telephone: opt_text(self.telephone),
            email: opt_text(self.email),
            date_of_onboarding: opt_text(self.date_of_onboarding),
            how_did_they_hear_about_us: opt_text(self.how_did_they_hear_about_us),
            referring_agency: opt_text(self.referring_agency),
            approval_status: opt_text(self.approval_status),
            denial_reason: opt_text(self.denial_reason),
            gate_combo: opt_text(self.gate_combo),
            notes: opt_text(self.notes),
            wood_size_label: opt_text(self.wood_size_label),
            wood_size_other: opt_text(self.wood_size_other),
            directions: opt_text(self.directions),
        }
    }
}

/// The record of a client as it is stored.
#[derive(Clone, Debug, PartialEq, Eq)]
pub struct ClientRecord {
    pub client_title: Option<String>,
    pub name: String,
    pub first_name: Option<String>,
    pub last_name: Option<String>,
    pub physical_address_line1: String,
    pub physical_address_line2: Option<String>,
    pub physical_address_city: String,
    pub physical_address_state: String,
    pub physical_address_postal_code: String,
    pub mailing_address_line1: Option<String>,
    pub mailing_address_line2: Option<String>,
    pub mailing_address_city: Option<String>,
    pub mailing_address_state: Option<String>,
    pub mailing_address_postal_code: Option<String>,
    pub telephone: Option<String>,
    pub email: Option<String>,
    pub date_of_onboarding: Option<String>,
    pub how_did_they_hear_about_us: Option<String>,
    pub referring_agency: Option<String>,
    pub approval_status: String,
    pub denial_reason: Option<String>,
    pub gate_combo: Option<String>,
    pub notes: Option<String>,
    pub wood_size_label: Option<String>,
    pub wood_size_other: Option<String>,
    pub directions: Option<String>,
}

/// What a `ClientRecord` says.
pub struct ClientRecordView {
    pub client_title: Option<Seq<char>>,
    pub name: Seq<char>,
    pub first_name: Option<Seq<char>>,
    pub last_name: Option<Seq<char>>,
    pub physical_address_line1: Seq<char>,
    pub physical_address_line2: Option<Seq<char>>,
    pub physical_address_city: Seq<char>,
    pub physical_address_state: Seq<char>,
    pub physical_address_postal_code: Seq<char>,
    pub mailing_address_line1: Option<Seq<char>>,
    pub mailing_address_line2: Option<Seq<char>>,
    pub mailing_address_city: Option<Seq<char>>,
    pub mailing_address_state: Option<Seq<char>>,
    pub mailing_address_postal_code: Option<Seq<char>>,
    pub telephone: Option<Seq<char>>,
    pub email: Option<Seq<char>>,
    pub date_of_onboarding: Option<Seq<char>>,
    pub how_did_they_hear_about_us: Option<Seq<char>>,
    pub referring_agency: Option<Seq<char>>,
    pub approval_status: Seq<char>,
    pub denial_reason: Option<Seq<char>>,
    pub gate_combo: Option<Seq<char>>,
    pub notes: Option<Seq<char>>,
    pub wood_size_label: Option<Seq<char>>,
    pub wood_size_other: Option<Seq<char>>,
    pub directions: Option<Seq<char>>,
}

impl View for ClientRecord {
    type V = ClientRecordView;

    open spec fn view(&self) -> ClientRecordView {
        ClientRecordView {
            client_title: opt_text(self.client_title),
            name: self.name@,
            first_name: opt_text(self.first_name),
            last_name: opt_text(self.last_name),
            physical_address_line1: self.physical_address_line1@,
            physical_address_line2: opt_text(self.physical_address_line2),
            physical_address_city: self.physical_address_city@,
            physical_address_state: self.physical_address_state@,
            physical_address_postal_code: self.physical_address_postal_code@,
            mailing_address_line1: opt_text(self.mailing_address_line1),
            mailing_address_line2: opt_text(self.mailing_address_line2),
            mailing_address_city: opt_text(self.mailing_address_city),
            mailing_address_state: opt_text(self.mailing_address_state),
            mailing_address_postal_code: opt_text(self.mailing_address_postal_code),
            telephone: opt_text(self.telephone),
            email: opt_text(self.email),
            date_of_onboarding: opt_text(self.date_of_onboarding),
            how_did_they_hear_about_us: opt_text(self.how_did_they_hear_about_us),
            referring_agency: opt_text(self.referring_agency),
            approval_status: self.approval_status@,
            denial_reason: opt_text(self.denial_reason),
            gate_combo: opt_text(self.gate_combo),
            notes: opt_text(self.notes),
            wood_size_label: opt_text(self.wood_size_label),
            wood_size_other: opt_text(self.wood_size_other),
            directions: opt_text(self.directions),
        }
    }
}

/// A client whose name is like the name of another.
#[derive(Clone, Debug, PartialEq, Eq)]
pub struct ClientConflictRow {
    pub id: String,
    pub name: String,
    pub physical_address_line1: String,
    pub physical_address_city: String,
    pub physical_address_state: String,
}

/// What a `ClientConflictRow` says.
pub struct ClientConflictRowView {
    pub id: Seq<char>,
    pub name: Seq<char>,
    pub physical_address_line1: Seq<char>,
    pub physical_address_city: Seq<char>,
    pub physical_address_state: Seq<char>,
}

impl View for ClientConflictRow {
    type V = ClientConflictRowView;

    open spec fn view(&self) -> ClientConflictRowView {
        ClientConflictRowView {
            id: self.id@,
            name: self.name@,
            physical_address_line1: self.physical_address_line1@,
            physical_address_city: self.physical_address_city@,
            physical_address_state: self.physical_address_state@,
        }
    }
}
/// The name of a client: the first and the last name without surrounding
/// white space, and the full name made of the two.
#[derive(Clone, Debug, PartialEq, Eq)]
pub struct FullName {
    pub first_name: String,
    pub last_name: String,
    pub name: String,
}

/// What a `FullName` says.
pub struct FullNameView {
    pub first_name: Seq<char>,
    pub last_name: Seq<char>,
    pub name: Seq<char>,
}

impl View for FullName {
    type V = FullNameView;

    open spec fn view(&self) -> FullNameView {
        FullNameView { first_name: self.first_name@, last_name: self.last_name@, name: self.name@ }
    }
}

/// A part of a name as it is used: without surrounding white space, and empty
/// where none is given.
pub open spec fn name_part(given: Option<Seq<char>>) -> Seq<char> {
    trimmed(
        match given {
            Some(text) => text,
            None => Seq::empty(),
        },
    )
}

/// The full name made of a first and a last name.
pub open spec fn joined_name(first: Seq<char>, last: Seq<char>) -> Seq<char> {
    trimmed(first + seq![' '] + last)
}

/// The name made of a first name, a last name and the full name as they are
/// used, or the reason why it is none: both parts are empty, or the full name
/// is.
pub open spec fn composed(first_name: Seq<char>, last_name: Seq<char>, name: Seq<char>) -> Result<
    FullNameView,
    Error,
> {
    if first_name.len() == 0 && last_name.len() == 0 {
        Err(Error::Validation(Invalid::NameMissing))
    } else if name.len() == 0 {
        Err(Error::Validation(Invalid::NameEmpty))
    } else {
        Ok(FullNameView { first_name, last_name, name })
    }
}

/// The name of a client, or the reason why the client has none: both parts
/// are empty, or the full name comes to nothing.
pub open spec fn named(first: Option<Seq<char>>, last: Option<Seq<char>>) -> Result<FullNameView, Error> {
    composed(name_part(first), name_part(last), joined_name(name_part(first), name_part(last)))
}

/// The approval status that is stored: the one given, or `pending`.
pub open spec fn approval_text(given: Option<Seq<char>>) -> Seq<char> {
    match given {
        Some(text) => text,
        None => ApprovalStatus::Pending.name(),
    }
}

/// Whether a client of a like name lives at another address than the one
/// given: street, city or state differ, the case of ASCII letters set aside.
pub open spec fn lives_elsewhere(
    other: ClientConflictRowView,
    line1: Seq<char>,
    city: Seq<char>,
    state: Seq<char>,
) -> bool {
    !(same_ignoring_ascii_case(other.physical_address_line1, line1) && same_ignoring_ascii_case(
        other.physical_address_city,
        city,
    ) && same_ignoring_ascii_case(other.physical_address_state, state))
}

/// What the rows say, one by one.
pub open spec fn conflict_views(rows: Seq<ClientConflictRow>) -> Seq<ClientConflictRowView> {
    Seq::new(rows.len(), |i: int| rows[i]@)
}

/// Whether `at` is the place of the first client of a like name who lives at
/// another address.
pub open spec fn is_first_conflict(
    others: Seq<ClientConflictRowView>,
    line1: Seq<char>,
    city: Seq<char>,
    state: Seq<char>,
    at: int,
) -> bool {
    &&& 0 <= at < others.len()
    &&& lives_elsewhere(others[at], line1, city, state)
    &&& forall|j: int| 0 <= j < at ==> !lives_elsewhere(#[trigger] others[j], line1, city, state)
}

/// Whether no client of a like name lives at another address.
pub open spec fn no_conflict(
    others: Seq<ClientConflictRowView>,
    line1: Seq<char>,
    city: Seq<char>,
    state: Seq<char>,
) -> bool {
    forall|j: int| 0 <= j < others.len() ==> !lives_elsewhere(#[trigger] others[j], line1, city, state)
}

/// The message about a client of a like name at another address.
pub open spec fn conflict_text(other: ClientConflictRowView) -> Seq<char> {
    "Name '"@ + other.name + "' already exists at a different address (id "@ + other.id + ", "@
        + other.physical_address_line1 + " "@ + other.physical_address_city + ")"@
}

/// The fields of a client's record, each with its stored value and the value
/// that an update stores in it: the names as they are used (see `named`), the
/// approval status as `approval_text` gives it, and the other fields as the
/// request has them.
pub open spec fn client_values(
    stored: ClientRecordView,
    input: ClientUpdateInputView,
    name: FullNameView,
) -> Seq<ValueRow> {
    seq![
        ValueRow {
            field: "client_title"@,
            old_value: stored.client_title,
            new_value: input.client_title,
        },
        ValueRow {
            field: "name"@,
            old_value: Some(stored.name),
            new_value: Some(name.name),
        },
        ValueRow {
            field: "first_name"@,
            old_value: stored.first_name,
            new_value: Some(name.first_name),
        },
        ValueRow {
            field: "last_name"@,
            old_value: stored.last_name,
            new_value: Some(name.last_name),
        },
        ValueRow {
            field: "physical_address_line1"@,
            old_value: Some(stored.physical_address_line1),
            new_value: Some(input.physical_address_line1),
        },
        ValueRow {
            field: "physical_address_line2"@,
            old_value: stored.physical_address_line2,
            new_value: input.physical_address_line2,
        },
        ValueRow {
            field: "physical_address_city"@,
            old_value: Some(stored.physical_address_city),
            new_value: Some(input.physical_address_city),
        },
        ValueRow {
            field: "physical_address_state"@,
            old_value: Some(stored.physical_address_state),
            new_value: Some(input.physical_address_state),
        },
        ValueRow {
            field: "physical_address_postal_code"@,
            old_value: Some(stored.physical_address_postal_code),
            new_value: Some(input.physical_address_postal_code),
        },
        ValueRow {
            field: "mailing_address_line1"@,
            old_value: stored.mailing_address_line1,
            new_value: input.mailing_address_line1,
        },
        ValueRow {
            field: "mailing_address_line2"@,
            old_value: stored.mailing_address_line2,
            new_value: input.mailing_address_line2,
        },
        ValueRow {
            field: "mailing_address_city"@,
            old_value: stored.mailing_address_city,
            new_value: input.mailing_address_city,
        },
        ValueRow {
            field: "mailing_address_state"@,
            old_value: stored.mailing_address_state,
            new_value: input.mailing_address_state,
        },
        ValueRow {
            field: "mailing_address_postal_code"@,
            old_value: stored.mailing_address_postal_code,
            new_value: input.mailing_address_postal_code,
        },
        ValueRow {
            field: "telephone"@,
            old_value: stored.telephone,
            new_value: input.telephone,
        },
        ValueRow {
            field: "email"@,
            old_value: stored.email,
            new_value: input.email,
        },
        ValueRow {
            field: "date_of_onboarding"@,
            old_value: stored.date_of_onboarding,
            new_value: input.date_of_onboarding,
        },
        ValueRow {
            field: "how_did_they_hear_about_us"@,
            old_value: stored.how_did_they_hear_about_us,
            new_value: input.how_did_they_hear_about_us,
        },
        ValueRow {
            field: "referring_agency"@,
            old_value: stored.referring_agency,
            new_value: input.referring_agency,
        },
        ValueRow {
            field: "approval_status"@,
            old_value: Some(stored.approval_status),
            new_value: Some(approval_text(input.approval_status)),
        },
        ValueRow {
            field: "denial_reason"@,
            old_value: stored.denial_reason,
            new_value: input.denial_reason,
        },
        ValueRow {
            field: "gate_combo"@,
            old_value: stored.gate_combo,
            new_value: input.gate_combo,
        },
        ValueRow {
            field: "notes"@,
            old_value: stored.notes,
            new_value: input.notes,
        },
        ValueRow {
            field: "wood_size_label"@,
            old_value: stored.wood_size_label,
            new_value: input.wood_size_label,
        },
        ValueRow {
            field: "wood_size_other"@,
            old_value: stored.wood_size_other,
            new_value: input.wood_size_other,
        },
        ValueRow {
            field: "directions"@,
            old_value: stored.directions,
            new_value: input.directions,
        },
    ]
}

/// The rows that an update of a client adds to the audit log: the event, and,
/// where the update is in order and the client is on record, one row for each
/// field whose value changed.
pub open spec fn client_update_log(
    stored: Option<ClientRecordView>,
    input: ClientUpdateInputView,
    role_name: Seq<char>,
    actor_name: Seq<char>,
) -> Seq<AuditRow> {
    let first = seq![event_row("update_client"@, role_name, actor_name)];
    match (named(input.first_name, input.last_name), stored) {
        (Ok(name), Some(record)) => first + change_rows(
            "update_client"@,
            role_name,
            actor_name,
            "clients"@,
            input.id,
            client_values(record, input, name),
        ),
        _ => first,
    }
}

/// What a stored record says, if there is one.
pub open spec fn opt_record_view(stored: Option<ClientRecord>) -> Option<ClientRecordView> {
    match stored {
        Some(record) => Some(record@),
        None => None,
    }
}

/// The name made of a first name, a last name and the full name as they are
/// used (see `composed`).
pub fn compose_name(first_name: String, last_name: String, name: String) -> (outcome: Result<
    FullName,
    Error,
>)
    ensures
        match outcome {
            Ok(made) => composed(first_name@, last_name@, name@) == Ok::<FullNameView, Error>(made@),
            Err(error) => composed(first_name@, last_name@, name@) == Err::<FullNameView, Error>(
                error,
            ),
        },
{
    if first_name.as_str().unicode_len() == 0 && last_name.as_str().unicode_len() == 0 {
        return Err(Error::Validation(Invalid::NameMissing));
    }
    if name.as_str().unicode_len() == 0 {
        return Err(Error::Validation(Invalid::NameEmpty));
    }
    Ok(FullName { first_name, last_name, name })
}

/// The name of a client (see `named`).
pub fn full_name(first: &Option<String>, last: &Option<String>) -> (outcome: Result<FullName, Error>)
    ensures
        match outcome {
            Ok(name) => named(opt_text(*first), opt_text(*last)) == Ok::<FullNameView, Error>(name@),
            Err(error) => named(opt_text(*first), opt_text(*last)) == Err::<FullNameView, Error>(
                error,
            ),
        },
{
    let first_name = match first {
        Some(text) => trim_text(text.as_str()),
        None => trim_text(""),
    };
    let last_name = match last {
        Some(text) => trim_text(text.as_str()),
        None => trim_text(""),
    };
    proof {
        reveal_strlit("");
        reveal_strlit(" ");
        assert(""@ =~= Seq::<char>::empty());
        assert(" "@ =~= seq![' ']);
    }
    let spaced = join_texts(first_name.as_str(), " ");
    let both = join_texts(spaced.as_str(), last_name.as_str());
    let name = trim_text(both.as_str());
    compose_name(first_name, last_name, name)
}

/// The approval status that is stored (see `approval_text`).
pub fn approval_or_pending(given: &Option<String>) -> (text: String)
    ensures
        text@ == approval_text(opt_text(*given)),
{
    match given {
        Some(text) => text.clone(),
        None => ApprovalStatus::Pending.as_str().to_owned(),
    }
}

/// The place of the first client of a like name who lives at another address,
/// or `None` where there is no such client.
pub fn find_address_conflict(
    others: &Vec<ClientConflictRow>,
    line1: &str,
    city: &str,
    state: &str,
) -> (found: Option<usize>)
    ensures
        match found {
            Some(at) => is_first_conflict(conflict_views(others@), line1@, city@, state@, at as int),
            None => no_conflict(conflict_views(others@), line1@, city@, state@),
        },
{
    let mut i: usize = 0;
    while i < others.len()
        invariant
            i <= others.len(),
            forall|j: int|
                0 <= j < i ==> !lives_elsewhere(
                    #[trigger] conflict_views(others@)[j],
                    line1@,
                    city@,
                    state@,
                ),
        decreases others.len() - i,
    {
        let other = &others[i];
        assert(conflict_views(others@)[i as int] == other@);
        let same: bool = eq_ignore_ascii_case(other.physical_address_line1.as_str(), line1)
            && eq_ignore_ascii_case(other.physical_address_city.as_str(), city)
            && eq_ignore_ascii_case(other.physical_address_state.as_str(), state);
        if !same {
            return Some(i);
        }
        i += 1;
    }
    None
}

/// The message about a client of a like name at another address.
pub fn conflict_message(other: &ClientConflictRow) -> (text: String)
    ensures
        text@ == conflict_text(other@),
{
    let text = join_texts("Name '", other.name.as_str());
    let text = join_texts(text.as_str(), "' already exists at a different address (id ");
    let text = join_texts(text.as_str(), other.id.as_str());
    let text = join_texts(text.as_str(), ", ");
    let text = join_texts(text.as_str(), other.physical_address_line1.as_str());
    let text = join_texts(text.as_str(), " ");
    let text = join_texts(text.as_str(), other.physical_address_city.as_str());
    join_texts(text.as_str(), ")")
}

/// What is decided of a new client besides what the request says: the
/// identifier, the name and the approval status.
#[derive(Clone, Debug, PartialEq, Eq)]
pub struct NewClient {
    pub id: String,
    pub name: FullName,
    pub approval_status: String,
}

/// Takes a client on. `others` are the clients on record whose name is like
/// the new client's.
///
/// The attempt is noted in the audit log. It fails where the client has no
/// name, and where a client of a like name lives at another address: one name
/// has one address. The error then carries the place in `others` of the first
/// such client, of whom `conflict_message` makes the text to show.
pub fn create_client(input: &ClientInput, others: &Vec<ClientConflictRow>, log: &mut AuditLog) -> (outcome:
    Result<NewClient, Error>)
    ensures
        final(log)@ == old(log)@.push(event_row("create_client"@, "unknown"@, "unknown"@)),
        old(log).well_formed() ==> final(log).well_formed(),
        match named(input@.first_name, input@.last_name) {
            Err(error) => outcome matches Err(e) && e == error,
            Ok(name) => match outcome {
                Ok(client) => {
                    &&& no_conflict(
                        conflict_views(others@),
                        input@.physical_address_line1,
                        input@.physical_address_city,
                        input@.physical_address_state,
                    )
                    &&& client.name@ == name
                    &&& client.approval_status@ == approval_text(input@.approval_status)
                    &&& is_uuid_text(client.id@)
                },
                Err(error) => {
                    &&& error matches Error::Validation(Invalid::NameAtOtherAddress(at))
                    &&& is_first_conflict(
                        conflict_views(others@),
                        input@.physical_address_line1,
                        input@.physical_address_city,
                        input@.physical_address_state,
                        at as int,
                    )
                },
            },
        },
{
    log.record_event("create_client", "unknown", "unknown");
    let name = match full_name(&input.first_name, &input.last_name) {
        Ok(name) => name,
        Err(error) => {
            return Err(error);
        },
    };
    match find_address_conflict(
        others,
        input.physical_address_line1.as_str(),
        input.physical_address_city.as_str(),
        input.physical_address_state.as_str(),
    ) {
        Some(at) => Err(Error::Validation(Invalid::NameAtOtherAddress(at))),
        None => Ok(
            NewClient {
                id: fresh_id(),
                name,
                approval_status: approval_or_pending(&input.approval_status),
            },
        ),
    }
}

/// The fields of a client's record, each with its stored value and the value
/// that an update gives it (see `client_values`).
pub fn client_field_values(stored: &ClientRecord, input: &ClientUpdateInput, name: &FullName) -> (values:
    Vec<FieldValue>)
    ensures
        value_rows(values@) == client_values(stored@, input@, name@),
{
    let mut values: Vec<FieldValue> = Vec::new();
    values.push(
        FieldValue {
            field: "client_title".to_owned(),
            old_value: clone_opt(&stored.client_title),
            new_value: clone_opt(&input.client_title),
        },
    );
    values.push(
        FieldValue {
            field: "name".to_owned(),
            old_value: Some(stored.name.clone()),
            new_value: Some(name.name.clone()),
        },
    );
    values.push(
        FieldValue {
            field: "first_name".to_owned(),
            old_value: clone_opt(&stored.first_name),
            new_value: Some(name.first_name.clone()),
        },
    );
    values.push(
        FieldValue {
            field: "last_name".to_owned(),
            old_value: clone_opt(&stored.last_name),
            new_value: Some(name.last_name.clone()),
        },
    );
    values.push(
        FieldValue {
            field: "physical_address_line1".to_owned(),
            old_value: Some(stored.physical_address_line1.clone()),
            new_value: Some(input.physical_address_line1.clone()),
        },
    );
    values.push(
        FieldValue {
            field: "physical_address_line2".to_owned(),
            old_value: clone_opt(&stored.physical_address_line2),
            new_value: clone_opt(&input.physical_address_line2),
        },
    );
    values.push(
        FieldValue {
            field: "physical_address_city".to_owned(),
            old_value: Some(stored.physical_address_city.clone()),
            new_value: Some(input.physical_address_city.clone()),
        },
    );
    values.push(
        FieldValue {
            field: "physical_address_state".to_owned(),
            old_value: Some(stored.physical_address_state.clone()),
            new_value: Some(input.physical_address_state.clone()),
        },
    );
    values.push(
        FieldValue {
            field: "physical_address_postal_code".to_owned(),
            old_value: Some(stored.physical_address_postal_code.clone()),
            new_value: Some(input.physical_address_postal_code.clone()),
        },
    );
    values.push(
        FieldValue {
            field: "mailing_address_line1".to_owned(),
            old_value: clone_opt(&stored.mailing_address_line1),
            new_value: clone_opt(&input.mailing_address_line1),
        },
    );
    values.push(
        FieldValue {
            field: "mailing_address_line2".to_owned(),
            old_value: clone_opt(&stored.mailing_address_line2),
            new_value: clone_opt(&input.mailing_address_line2),
        },
    );
    values.push(
        FieldValue {
            field: "mailing_address_city".to_owned(),
            old_value: clone_opt(&stored.mailing_address_city),
            new_value: clone_opt(&input.mailing_address_city),
        },
    );
    values.push(
        FieldValue {
            field: "mailing_address_state".to_owned(),
            old_value: clone_opt(&stored.mailing_address_state),
            new_value: clone_opt(&input.mailing_address_state),
        },
    );
    values.push(
        FieldValue {
            field: "mailing_address_postal_code".to_owned(),
            old_value: clone_opt(&stored.mailing_address_postal_code),
            new_value: clone_opt(&input.mailing_address_postal_code),
        },
    );
    values.push(
        FieldValue {
            field: "telephone".to_owned(),
            old_value: clone_opt(&stored.telephone),
            new_value: clone_opt(&input.telephone),
        },
    );
    values.push(
        FieldValue {
            field: "email".to_owned(),
            old_value: clone_opt(&stored.email),
            new_value: clone_opt(&input.email),
        },
    );
    values.push(
        FieldValue {
            field: "date_of_onboarding".to_owned(),
            old_value: clone_opt(&stored.date_of_onboarding),
            new_value: clone_opt(&input.date_of_onboarding),
        },
    );
    values.push(
        FieldValue {
            field: "how_did_they_hear_about_us".to_owned(),
            old_value: clone_opt(&stored.how_did_they_hear_about_us),
            new_value: clone_opt(&input.how_did_they_hear_about_us),
        },
    );
    values.push(
        FieldValue {
            field: "referring_agency".to_owned(),
            old_value: clone_opt(&stored.referring_agency),
            new_value: clone_opt(&input.referring_agency),
        },
    );
    values.push(
        FieldValue {
            field: "approval_status".to_owned(),
            old_value: Some(stored.approval_status.clone()),
            new_value: Some(approval_or_pending(&input.approval_status)),
        },
    );
    values.push(
        FieldValue {
            field: "denial_reason".to_owned(),
            old_value: clone_opt(&stored.denial_reason),
            new_value: clone_opt(&input.denial_reason),
        },
    );
    values.push(
        FieldValue {
            field: "gate_combo".to_owned(),
            old_value: clone_opt(&stored.gate_combo),
            new_value: clone_opt(&input.gate_combo),
        },
    );
    values.push(
        FieldValue {
            field: "notes".to_owned(),
            old_value: clone_opt(&stored.notes),
            new_value: clone_opt(&input.notes),
        },
    );
    values.push(
        FieldValue {
            field: "wood_size_label".to_owned(),
            old_value: clone_opt(&stored.wood_size_label),
            new_value: clone_opt(&input.wood_size_label),
        },
    );
    values.push(
        FieldValue {
            field: "wood_size_other".to_owned(),
            old_value: clone_opt(&stored.wood_size_other),
            new_value: clone_opt(&input.wood_size_other),
        },
    );
    values.push(
        FieldValue {
            field: "directions".to_owned(),
            old_value: clone_opt(&stored.directions),
            new_value: clone_opt(&input.directions),
        },
    );
    assert(value_rows(values@) =~= client_values(stored@, input@, name@));
    values
}

/// Changes the record of a client. `stored` is the record as it is, or `None`
/// where the client is not on record.
///
/// The attempt is noted in the audit log, under the role and the name of the
/// actor, each `unknown` where it is not given. It fails where the client has
/// no name. On success the result is the name and the approval status to
/// store, and the audit log holds one row for each field whose value changed.
pub fn update_client(
    stored: Option<ClientRecord>,
    input: &ClientUpdateInput,
    role: Option<String>,
    actor: Option<String>,
    log: &mut AuditLog,
) -> (outcome: Result<(FullName, String), Error>)
    ensures
        final(log)@ == old(log)@ + client_update_log(
            opt_record_view(stored),
            input@,
            noted_name(opt_text(role)),
            noted_name(opt_text(actor)),
        ),
        old(log).well_formed() ==> final(log).well_formed(),
        match outcome {
            Ok(change) => {
                &&& named(input@.first_name, input@.last_name) == Ok::<FullNameView, Error>(
                    change.0@,
                )
                &&& change.1@ == approval_text(input@.approval_status)
            },
            Err(error) => named(input@.first_name, input@.last_name) == Err::<FullNameView, Error>(
                error,
            ),
        },
{
    let role_name = name_or_unknown(&role);
    let actor_name = name_or_unknown(&actor);
    log.record_event("update_client", role_name.as_str(), actor_name.as_str());
    let ghost first = seq![event_row("update_client"@, role_name@, actor_name@)];
    assert(log@ =~= old(log)@ + first);
    let name = match full_name(&input.first_name, &input.last_name) {
        Ok(name) => name,
        Err(error) => {
            return Err(error);
        },
    };
    match &stored {
        Some(record) => {
            let values = client_field_values(record, input, &name);
            log.record_field_changes(
                "update_client",
                role_name.as_str(),
                actor_name.as_str(),
                "clients",
                input.id.as_str(),
                &values,
            );
            assert(log@ =~= old(log)@ + client_update_log(
                opt_record_view(stored),
                input@,
                role_name@,
                actor_name@,
            ));
        },
        None => {},
    }
    Ok((name, approval_or_pending(&input.approval_status)))
}

} // verus!
