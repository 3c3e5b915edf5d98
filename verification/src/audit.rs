//! The audit recorder: an append-only log of events and of changes to single
//! fields.

use vstd::prelude::*;
use crate::ident::{fresh_id, is_uuid_text};
use crate::text::{clone_opt, opt_eq, opt_text, str_eq};

verus! {

/// The change of one field of one entity.
#[derive(Clone, Debug, PartialEq, Eq)]
pub struct FieldChange {
    pub entity: String,
    pub entity_id: String,
    pub field: String,
    pub old_value: Option<String>,
    pub new_value: Option<String>,
}

/// What a `FieldChange` says.
pub struct ChangeRow {
    pub entity: Seq<char>,
    pub entity_id: Seq<char>,
    pub field: Seq<char>,
    pub old_value: Option<Seq<char>>,
    pub new_value: Option<Seq<char>>,
}

/// A row of the audit log. Once written it is neither changed nor removed.
#[derive(Clone, Debug, PartialEq, Eq)]
pub struct AuditLogEntry {
    pub id: String,
    pub event: String,
    pub role: String,
    pub actor: String,
    /// The change that the row reports, where the event is the change of a
    /// field.
    pub change: Option<FieldChange>,
}

/// What an `AuditLogEntry` says, its identifier set aside.
pub struct AuditRow {
    pub event: Seq<char>,
    pub role: Seq<char>,
    pub actor: Seq<char>,
    pub change: Option<ChangeRow>,
}

/// The old and the new value of a field, changed or not.
#[derive(Clone, Debug, PartialEq, Eq)]
pub struct FieldValue {
    pub field: String,
    pub old_value: Option<String>,
    pub new_value: Option<String>,
}

/// What a `FieldValue` says.
pub struct ValueRow {
    pub field: Seq<char>,
    pub old_value: Option<Seq<char>>,
    pub new_value: Option<Seq<char>>,
}

impl View for FieldChange {
    type V = ChangeRow;

    open spec fn view(&self) -> ChangeRow {
        ChangeRow {
            entity: self.entity@,
            entity_id: self.entity_id@,
            field: self.field@,
            old_value: opt_text(self.old_value),
            new_value: opt_text(self.new_value),
        }
    }
}

impl View for AuditLogEntry {
    type V = AuditRow;

    open spec fn view(&self) -> AuditRow {
        AuditRow {
            event: self.event@,
            role: self.role@,
            actor: self.actor@,
            change: match self.change {
                Some(change) => Some(change@),
                None => None,
            },
        }
    }
}

impl View for FieldValue {
    type V = ValueRow;

    open spec fn view(&self) -> ValueRow {
        ValueRow {
            field: self.field@,
            old_value: opt_text(self.old_value),
            new_value: opt_text(self.new_value),
        }
    }
}

/// The row that reports an event.
pub open spec fn event_row(event: Seq<char>, role: Seq<char>, actor: Seq<char>) -> AuditRow {
    AuditRow { event, role, actor, change: None }
}

/// The row that reports the change of a field.
pub open spec fn change_row(
    event: Seq<char>,
    role: Seq<char>,
    actor: Seq<char>,
    entity: Seq<char>,
    entity_id: Seq<char>,
    value: ValueRow,
) -> AuditRow {
    AuditRow {
        event,
        role,
        actor,
        change: Some(
            ChangeRow {
                entity,
                entity_id,
                field: value.field,
                old_value: value.old_value,
                new_value: value.new_value,
            },
        ),
    }
}

/// Whether the old and the new value differ. Two absent values do not.
pub open spec fn differs(value: ValueRow) -> bool {
    value.old_value != value.new_value
}

/// The fields whose value changed, in the order given.
pub open spec fn changed(values: Seq<ValueRow>) -> Seq<ValueRow>
    decreases values.len(),
{
    if values.len() == 0 {
        Seq::empty()
    } else if differs(values.last()) {
        changed(values.drop_last()).push(values.last())
    } else {
        changed(values.drop_last())
    }
}

/// The rows that report a batch of field values: one row for each field that
/// changed, all with the same event, entity and entity identifier.
pub open spec fn change_rows(
    event: Seq<char>,
    role: Seq<char>,
    actor: Seq<char>,
    entity: Seq<char>,
    entity_id: Seq<char>,
    values: Seq<ValueRow>,
) -> Seq<AuditRow> {
    let kept = changed(values);
    Seq::new(kept.len(), |i: int| change_row(event, role, actor, entity, entity_id, kept[i]))
}

/// Whether a row reports a change of the entity named.
pub open spec fn concerns(row: AuditRow, entity: Seq<char>, entity_id: Seq<char>) -> bool {
    row.change matches Some(change) && change.entity == entity && change.entity_id == entity_id
}

/// What a row says of the field it reports. Meant for rows that report a
/// change.
pub open spec fn value_of(row: AuditRow) -> ValueRow {
    ValueRow {
        field: row.change->0.field,
        old_value: row.change->0.old_value,
        new_value: row.change->0.new_value,
    }
}

/// The changes of one entity that the rows report, in the order of the rows.
pub open spec fn changes_of(rows: Seq<AuditRow>, entity: Seq<char>, entity_id: Seq<char>) -> Seq<
    ValueRow,
>
    decreases rows.len(),
{
    if rows.len() == 0 {
        Seq::empty()
    } else if concerns(rows.last(), entity, entity_id) {
        changes_of(rows.drop_last(), entity, entity_id).push(value_of(rows.last()))
    } else {
        changes_of(rows.drop_last(), entity, entity_id)
    }
}

/// The rows that report an event, in their order, without the rows that
/// report the change of a field.
pub open spec fn events_of(rows: Seq<AuditRow>) -> Seq<AuditRow>
    decreases rows.len(),
{
    if rows.len() == 0 {
        Seq::empty()
    } else if rows.last().change is None {
        events_of(rows.drop_last()).push(rows.last())
    } else {
        events_of(rows.drop_last())
    }
}

/// The rows that are written once the store has answered. Where the store
/// kept what the operation changed, all of them are. Where it failed, the
/// changes that the rows report were not made: only the rows of events are
/// written, which note the attempt.
pub open spec fn rows_to_write(rows: Seq<AuditRow>, stored: bool) -> Seq<AuditRow> {
    if stored {
        rows
    } else {
        events_of(rows)
    }
}

/// What the values say, one by one.
pub open spec fn value_rows(values: Seq<FieldValue>) -> Seq<ValueRow> {
    Seq::new(values.len(), |i: int| values[i]@)
}

/// What the entries say, one by one.
pub open spec fn audit_rows(entries: Seq<AuditLogEntry>) -> Seq<AuditRow> {
    Seq::new(entries.len(), |i: int| entries[i]@)
}

/// The row for an event, under a new identifier.
pub fn audit_db(event: &str, role: &str, actor: &str) -> (entry: AuditLogEntry)
    ensures
        entry@ == event_row(event@, role@, actor@),
        is_uuid_text(entry.id@),
{
    AuditLogEntry {
        id: fresh_id(),
        event: event.to_owned(),
        role: role.to_owned(),
        actor: actor.to_owned(),
        change: None,
    }
}

/// The row for the change of a field, under a new identifier; `None` where
/// the old and the new value are equal, or both absent.
pub fn audit_change(
    event: &str,
    role: &str,
    actor: &str,
    entity: &str,
    entity_id: &str,
    field: &str,
    old_value: Option<String>,
    new_value: Option<String>,
) -> (entry: Option<AuditLogEntry>)
    ensures
        ({
            let value = ValueRow {
                field: field@,
                old_value: opt_text(old_value),
                new_value: opt_text(new_value),
            };
            match entry {
                None => !differs(value),
                Some(row) => {
                    &&& differs(value)
                    &&& row@ == change_row(event@, role@, actor@, entity@, entity_id@, value)
                    &&& is_uuid_text(row.id@)
                },
            }
        }),
{
    if opt_eq(&old_value, &new_value) {
        return None;
    }
    Some(
        AuditLogEntry {
            id: fresh_id(),
            event: event.to_owned(),
            role: role.to_owned(),
            actor: actor.to_owned(),
            change: Some(
                FieldChange {
                    entity: entity.to_owned(),
                    entity_id: entity_id.to_owned(),
                    field: field.to_owned(),
                    old_value,
                    new_value,
                },
            ),
        },
    )
}

/// The audit log, or the part of it that one operation writes. Rows are only
/// ever added at the end.
#[derive(Clone, Debug, PartialEq, Eq)]
pub struct AuditLog {
    pub entries: Vec<AuditLogEntry>,
}

impl View for AuditLog {
    type V = Seq<AuditRow>;

    open spec fn view(&self) -> Seq<AuditRow> {
        audit_rows(self.entries@)
    }
}

impl AuditLog {
    /// Every row has an identifier of the usual shape.
    pub open spec fn well_formed(&self) -> bool {
        forall|i: int| 0 <= i < self.entries@.len() ==> is_uuid_text(#[trigger] self.entries@[i].id@)
    }

    pub fn new() -> (log: AuditLog)
        ensures
            log@ == Seq::<AuditRow>::empty(),
            log.well_formed(),
    {
        let log = AuditLog { entries: Vec::new() };
        assert(log@ =~= Seq::<AuditRow>::empty());
        log
    }

    /// Adds the row for an event.
    pub fn record_event(&mut self, event: &str, role: &str, actor: &str)
        ensures
            final(self)@ == old(self)@.push(event_row(event@, role@, actor@)),
            old(self).well_formed() ==> final(self).well_formed(),
    {
        let entry = audit_db(event, role, actor);
        self.entries.push(entry);
        assert(self@ =~= old(self)@.push(event_row(event@, role@, actor@)));
    }

    /// Adds the row for the change of a field, and tells whether it did: there
    /// is none where the old and the new value are equal.
    pub fn record_field_change(
        &mut self,
        event: &str,
        role: &str,
        actor: &str,
        entity: &str,
        entity_id: &str,
        field: &str,
        old_value: Option<String>,
        new_value: Option<String>,
    ) -> (recorded: bool)
        ensures
            ({
                let value = ValueRow {
                    field: field@,
                    old_value: opt_text(old_value),
                    new_value: opt_text(new_value),
                };
                &&& recorded == differs(value)
                &&& final(self)@ == if differs(value) {
                    old(self)@.push(change_row(event@, role@, actor@, entity@, entity_id@, value))
                } else {
                    old(self)@
                }
            }),
            old(self).well_formed() ==> final(self).well_formed(),
    {
        let ghost value = ValueRow {
            field: field@,
            old_value: opt_text(old_value),
            new_value: opt_text(new_value),
        };
        match audit_change(event, role, actor, entity, entity_id, field, old_value, new_value) {
            None => false,
            Some(entry) => {
                self.entries.push(entry);
                assert(self@ =~= old(self)@.push(
                    change_row(event@, role@, actor@, entity@, entity_id@, value),
                ));
                true
            },
        }
    }

    /// Adds one row for each field of the batch whose value changed, in the
    /// order of the batch, and none for the others.
    pub fn record_field_changes(
        &mut self,
        event: &str,
        role: &str,
        actor: &str,
        entity: &str,
        entity_id: &str,
        values: &Vec<FieldValue>,
    )
        ensures
            final(self)@ == old(self)@ + change_rows(
                event@,
                role@,
                actor@,
                entity@,
                entity_id@,
                value_rows(values@),
            ),
            old(self).well_formed() ==> final(self).well_formed(),
    {
        let ghost all = value_rows(values@);
        let mut i: usize = 0;
        assert(all.take(0) =~= Seq::<ValueRow>::empty());
        assert(self@ =~= old(self)@ + change_rows(
            event@,
            role@,
            actor@,
            entity@,
            entity_id@,
            all.take(0),
        ));
        while i < values.len()
            invariant
                i <= values.len(),
                all == value_rows(values@),
                self@ == old(self)@ + change_rows(
                    event@,
                    role@,
                    actor@,
                    entity@,
                    entity_id@,
                    all.take(i as int),
                ),
                old(self).well_formed() ==> self.well_formed(),
            decreases values.len() - i,
        {
            let ghost before = self@;
            let value = &values[i];
            assert(all.take(i + 1).drop_last() =~= all.take(i as int));
            assert(all.take(i + 1).last() == value@);
            self.record_field_change(
                event,
                role,
                actor,
                entity,
                entity_id,
                value.field.as_str(),
                clone_opt(&value.old_value),
                clone_opt(&value.new_value),
            );
            assert(self@ =~= old(self)@ + change_rows(
                event@,
                role@,
                actor@,
                entity@,
                entity_id@,
                all.take(i + 1),
            ));
            i += 1;
        }
        assert(all.take(i as int) =~= all);
    }

    /// The changes of one entity that the log reports, in the order of the
    /// rows.
    pub fn changes_for(&self, entity: &str, entity_id: &str) -> (found: Vec<FieldValue>)
        ensures
            value_rows(found@) == changes_of(self@, entity@, entity_id@),
    {
        let mut found: Vec<FieldValue> = Vec::new();
        let mut i: usize = 0;
        assert(self@.take(0) =~= Seq::<AuditRow>::empty());
        assert(value_rows(found@) =~= Seq::<ValueRow>::empty());
        while i < self.entries.len()
            invariant
                i <= self.entries.len(),
                value_rows(found@) == changes_of(self@.take(i as int), entity@, entity_id@),
            decreases self.entries.len() - i,
        {
            let ghost before = value_rows(found@);
            assert(self@.take(i + 1).drop_last() =~= self@.take(i as int));
            assert(self@.take(i + 1).last() == self.entries@[i as int]@);
            match &self.entries[i].change {
                Some(change) => {
                    if str_eq(change.entity.as_str(), entity) && str_eq(
                        change.entity_id.as_str(),
                        entity_id,
                    ) {
                        found.push(
                            FieldValue {
                                field: change.field.clone(),
                                old_value: clone_opt(&change.old_value),
                                new_value: clone_opt(&change.new_value),
                            },
                        );
                        assert(value_rows(found@) =~= before.push(
                            value_of(self.entries@[i as int]@),
                        ));
                    }
                },
                None => {},
            }
            i += 1;
        }
        assert(self@.take(i as int) =~= self@);
        found
    }

    /// The log as it is written once the store has answered (see
    /// `rows_to_write`): `stored` says whether the store kept what the
    /// operation changed. The rows keep their identifiers.
    pub fn to_write(self, stored: bool) -> (kept: AuditLog)
        ensures
            kept@ == rows_to_write(self@, stored),
            self.well_formed() ==> kept.well_formed(),
    {
        if stored {
            return self;
        }
        let mut kept = AuditLog { entries: Vec::new() };
        let mut i: usize = 0;
        assert(self@.take(0) =~= Seq::<AuditRow>::empty());
        assert(kept@ =~= Seq::<AuditRow>::empty());
        while i < self.entries.len()
            invariant
                i <= self.entries.len(),
                kept@ == events_of(self@.take(i as int)),
                self.well_formed() ==> kept.well_formed(),
            decreases self.entries.len() - i,
        {
            let ghost before = kept@;
            let ghost held = kept.entries@;
            assert(self@.take(i + 1).drop_last() =~= self@.take(i as int));
            assert(self@.take(i + 1).last() == self.entries@[i as int]@);
            let entry = &self.entries[i];
            if entry.change.is_none() {
                let copy = AuditLogEntry {
                    id: entry.id.clone(),
                    event: entry.event.clone(),
                    role: entry.role.clone(),
                    actor: entry.actor.clone(),
                    change: None,
                };
                kept.entries.push(copy);
                assert(kept@ =~= before.push(self.entries@[i as int]@));
                assert(forall|j: int| 0 <= j < held.len() ==> kept.entries@[j] == held[j]);
            }
            i += 1;
        }
        assert(self@.take(i as int) =~= self@);
        kept
    }
}

/// A field is among the changed ones exactly if its value differs.
pub proof fn lemma_changed_only_differing(values: Seq<ValueRow>)
    ensures
        forall|i: int| 0 <= i < changed(values).len() ==> differs(#[trigger] changed(values)[i]),
        forall|i: int|
            0 <= i < values.len() && differs(#[trigger] values[i]) ==> changed(values).contains(
                values[i],
            ),
        forall|i: int|
            0 <= i < changed(values).len() ==> values.contains(#[trigger] changed(values)[i]),
    decreases values.len(),
{
    if values.len() > 0 {
        let rest = values.drop_last();
        lemma_changed_only_differing(rest);
        let kept = changed(values);
        assert forall|i: int| 0 <= i < values.len() && differs(#[trigger] values[i]) implies kept.contains(
            values[i],
        ) by {
            if i < rest.len() {
                assert(rest[i] == values[i]);
                let k = choose|k: int| 0 <= k < changed(rest).len() && changed(rest)[k] == rest[i];
                assert(kept[k] == values[i]);
            } else {
                assert(kept[kept.len() - 1] == values[i]);
            }
        }
        assert forall|i: int| 0 <= i < kept.len() implies values.contains(#[trigger] kept[i]) by {
            if i < changed(rest).len() {
                assert(kept[i] == changed(rest)[i]);
                let k = choose|k: int| 0 <= k < rest.len() && rest[k] == changed(rest)[i];
                assert(values[k] == kept[i]);
            } else {
                assert(values[values.len() - 1] == kept[i]);
            }
        }
    }
}

proof fn lemma_changes_of_push(
    rows: Seq<AuditRow>,
    row: AuditRow,
    entity: Seq<char>,
    entity_id: Seq<char>,
)
    ensures
        changes_of(rows.push(row), entity, entity_id) == if concerns(row, entity, entity_id) {
            changes_of(rows, entity, entity_id).push(value_of(row))
        } else {
            changes_of(rows, entity, entity_id)
        },
{
    assert(rows.push(row).drop_last() =~= rows);
}

/// Reading back what was recorded: after the rows for a batch of field values
/// are added to a log, the changes that the log reports of that entity are
/// those it reported before, followed by the fields of the batch whose value
/// changed, each with its old and its new value, and by nothing else.
pub proof fn lemma_recorded_changes_read_back(
    rows: Seq<AuditRow>,
    event: Seq<char>,
    role: Seq<char>,
    actor: Seq<char>,
    entity: Seq<char>,
    entity_id: Seq<char>,
    values: Seq<ValueRow>,
)
    ensures
        changes_of(
            rows + change_rows(event, role, actor, entity, entity_id, values),
            entity,
            entity_id,
        ) == changes_of(rows, entity, entity_id) + changed(values),
    decreases values.len(),
{
    let added = change_rows(event, role, actor, entity, entity_id, values);
    if values.len() == 0 {
        assert(rows + added =~= rows);
        assert(changes_of(rows, entity, entity_id) + changed(values) =~= changes_of(
            rows,
            entity,
            entity_id,
        ));
    } else {
        let rest = values.drop_last();
        let fewer = change_rows(event, role, actor, entity, entity_id, rest);
        lemma_recorded_changes_read_back(rows, event, role, actor, entity, entity_id, rest);
        if differs(values.last()) {
            let row = change_row(event, role, actor, entity, entity_id, values.last());
            assert(added =~= fewer.push(row));
            assert(rows + added =~= (rows + fewer).push(row));
            lemma_changes_of_push(rows + fewer, row, entity, entity_id);
            assert(value_of(row) == values.last());
            assert(changes_of(rows, entity, entity_id) + changed(values) =~= (changes_of(
                rows,
                entity,
                entity_id,
            ) + changed(rest)).push(values.last()));
        } else {
            assert(added =~= fewer);
        }
    }
}

/// A log that holds only what `record_field_changes` wrote of one entity
/// reports exactly the changed fields of the batch.
pub proof fn lemma_fresh_log_reads_back(
    event: Seq<char>,
    role: Seq<char>,
    actor: Seq<char>,
    entity: Seq<char>,
    entity_id: Seq<char>,
    values: Seq<ValueRow>,
)
    ensures
        changes_of(
            change_rows(event, role, actor, entity, entity_id, values),
            entity,
            entity_id,
        ) == changed(values),
{
    let empty = Seq::<AuditRow>::empty();
    lemma_recorded_changes_read_back(empty, event, role, actor, entity, entity_id, values);
    assert(empty + change_rows(event, role, actor, entity, entity_id, values) =~= change_rows(
        event,
        role,
        actor,
        entity,
        entity_id,
        values,
    ));
    assert(changes_of(empty, entity, entity_id) + changed(values) =~= changed(values));
}

/// The name under which a role or an actor is noted where none is given:
/// `unknown`.
pub open spec fn noted_name(given: Option<Seq<char>>) -> Seq<char> {
    match given {
        Some(name) => name,
        None => "unknown"@,
    }
}

/// The name given, or `unknown`.
pub fn name_or_unknown(given: &Option<String>) -> (name: String)
    ensures
        name@ == noted_name(opt_text(*given)),
{
    match given {
        Some(name) => name.clone(),
        None => "unknown".to_owned(),
    }
}

} // verus!
