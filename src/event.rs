//! Change events as they go on the wire, and how they are built from a row.
use vstd::prelude::*;
use crate::row::{RowImage, lookup_i32, lookup_i64};

verus! {

/// Wire ordinal of a 32-bit integer key column.
pub const INT_COLUMN_TYPE: i32 = 0;

/// Wire ordinal of a 64-bit integer key column.
pub const BIGINT_COLUMN_TYPE: i32 = 1;

/// The kind of row change.
#[derive(PartialEq, Eq, Structural, Debug, Clone, Copy)]
pub enum DbAction {
    Insert,
    Update,
    Delete,
    Truncate,
}

impl DbAction {
    pub open spec fn spec_ordinal(self) -> i32 {
        match self {
            DbAction::Insert => 0,
            DbAction::Update => 1,
            DbAction::Delete => 2,
            DbAction::Truncate => 3,
        }
    }

    /// The ordinal that the wire schema gives this kind.
    pub fn ordinal(&self) -> (r: i32)
        ensures
            r == self.spec_ordinal(),
    {
        match self {
            DbAction::Insert => 0,
            DbAction::Update => 1,
            DbAction::Delete => 2,
            DbAction::Truncate => 3,
        }
    }
}

/// Kind of a change from the trigger's flags; truncate is what is left when
/// no other flag is set.
pub open spec fn kind_of(fired_by_insert: bool, fired_by_update: bool, fired_by_delete: bool) -> DbAction {
    if fired_by_update {
        DbAction::Update
    } else if fired_by_insert {
        DbAction::Insert
    } else if fired_by_delete {
        DbAction::Delete
    } else {
        DbAction::Truncate
    }
}

pub fn event_kind(fired_by_insert: bool, fired_by_update: bool, fired_by_delete: bool) -> (r: DbAction)
    ensures
        r == kind_of(fired_by_insert, fired_by_update, fired_by_delete),
{
    if fired_by_update {
        DbAction::Update
    } else if fired_by_insert {
        DbAction::Insert
    } else if fired_by_delete {
        DbAction::Delete
    } else {
        DbAction::Truncate
    }
}

/// Value of a key column.
#[derive(PartialEq, Eq, Structural, Debug, Clone, Copy)]
pub enum PkValue {
    IntValue(i32),
    BigintValue(i64),
}

/// A key column: its name, the wire ordinal of its type, and its value
/// (absent when the row has none).
#[derive(Debug, Clone)]
pub struct PkColumn {
    pub column_name: String,
    pub column_type: i32,
    pub pk_value: Option<PkValue>,
}

/// An event as sent to the remote processor. `id_value` is false on the
/// primary call and true on the follow-up call that carries resolved values.
#[derive(Debug, Clone)]
pub struct EventRequest {
    pub table_name: String,
    pub event_type: i32,
    pub id_value: bool,
    pub pks: Vec<PkColumn>,
    pub optional_caller: Option<String>,
}

/// The processor's answer: the columns whose values it wants echoed back.
#[derive(Debug, Clone)]
pub struct EventResponse {
    pub repeat_with: Vec<PkColumn>,
}

/// Value of the row's `id` key column, absent when it is missing, null or
/// not a 32-bit integer.
pub open spec fn key_value(row: RowImage) -> Option<PkValue> {
    match lookup_i32(row, "id"@) {
        Ok(Some(v)) => Some(PkValue::IntValue(v)),
        _ => None,
    }
}

/// The key columns captured from a row: the `id` column, present in the list
/// even when its value is not.
pub fn primary_keys(row: &RowImage) -> (r: Vec<PkColumn>)
    ensures
        r@.len() == 1,
        r@[0].column_name@ == "id"@,
        r@[0].column_type == INT_COLUMN_TYPE,
        r@[0].pk_value == key_value(*row),
{
    let name = String::from_str("id");
    let pk_value = match row.get_i32(&name) {
        Ok(Some(v)) => Some(PkValue::IntValue(v)),
        _ => None,
    };
    let mut pks: Vec<PkColumn> = Vec::new();
    pks.push(PkColumn { column_name: name, column_type: INT_COLUMN_TYPE, pk_value });
    pks
}

/// Schema-qualified table name, `public` standing for a missing schema.
pub open spec fn qualified_name(schema: Option<Seq<char>>, table: Seq<char>) -> Seq<char> {
    let prefix = match schema {
        Some(s) => s,
        None => "public"@,
    };
    prefix + "."@ + table
}

pub fn qualified_table_name(schema: &Option<String>, table: &String) -> (r: String)
    ensures
        r@ == qualified_name(
            match schema {
                Some(s) => Some(s@),
                None => None,
            },
            table@,
        ),
{
    let mut name = match schema {
        Some(s) => s.clone(),
        None => String::from_str("public"),
    };
    name.append(".");
    name.append(table.as_str());
    name
}

/// The value that a follow-up call reports for a requested column, read from
/// the row by the column's declared type (64-bit for `BIGINT_COLUMN_TYPE`,
/// else 32-bit); absent when the row has no such value.
pub open spec fn resolved_value(row: RowImage, col: PkColumn) -> Option<PkValue> {
    if col.column_type == BIGINT_COLUMN_TYPE {
        match lookup_i64(row, col.column_name@) {
            Ok(Some(v)) => Some(PkValue::BigintValue(v)),
            _ => None,
        }
    } else {
        match lookup_i32(row, col.column_name@) {
            Ok(Some(v)) => Some(PkValue::IntValue(v)),
            _ => None,
        }
    }
}

/// `k` is the echo of the requested column `col` for `row`.
pub open spec fn is_echo_of(k: PkColumn, col: PkColumn, row: RowImage) -> bool {
    &&& k.column_name@ == col.column_name@
    &&& k.column_type == col.column_type
    &&& k.pk_value == resolved_value(row, col)
}

/// Resolves one requested column against the row.
pub fn echo_column(col: &PkColumn, row: &RowImage) -> (r: PkColumn)
    ensures
        is_echo_of(r, *col, *row),
{
    let pk_value = if col.column_type == BIGINT_COLUMN_TYPE {
        match row.get_i64(&col.column_name) {
            Ok(Some(v)) => Some(PkValue::BigintValue(v)),
            _ => None,
        }
    } else {
        match row.get_i32(&col.column_name) {
            Ok(Some(v)) => Some(PkValue::IntValue(v)),
            _ => None,
        }
    };
    PkColumn { column_name: col.column_name.clone(), column_type: col.column_type, pk_value }
}

/// `f` is the follow-up of `primary` for the columns `requested` and `row`:
/// the same event, marked resolved, whose keys are the primary keys followed
/// by the echo of each requested column, in order.
pub open spec fn is_follow_up(f: EventRequest, primary: EventRequest, requested: Seq<PkColumn>, row: RowImage) -> bool {
    &&& f.table_name == primary.table_name
    &&& f.event_type == primary.event_type
    &&& f.optional_caller == primary.optional_caller
    &&& f.id_value
    &&& f.pks@.len() == primary.pks@.len() + requested.len()
    &&& forall|i: int| 0 <= i < primary.pks@.len() ==> #[trigger] f.pks@[i] == primary.pks@[i]
    &&& forall|j: int|
        0 <= j < requested.len() ==> is_echo_of(#[trigger] f.pks@[primary.pks@.len() + j], requested[j], row)
}

/// The follow-up call owed after a primary call answered with `response`:
/// none when the response requests no column.
pub fn follow_up(primary: EventRequest, response: &EventResponse, row: &RowImage) -> (r: Option<EventRequest>)
    ensures
        r is None <==> response.repeat_with@.len() == 0,
        r matches Some(f) ==> is_follow_up(f, primary, response.repeat_with@, *row),
{
    if response.repeat_with.len() == 0 {
        return None;
    }
    let ghost primary_pks = primary.pks@;
    let EventRequest { table_name, event_type, id_value: _, pks, optional_caller } = primary;
    let mut pks = pks;
    let mut j: usize = 0;
    while j < response.repeat_with.len()
        invariant
            0 <= j <= response.repeat_with@.len(),
            pks@.len() == primary_pks.len() + j,
            forall|i: int| 0 <= i < primary_pks.len() ==> #[trigger] pks@[i] == primary_pks[i],
            forall|k: int|
                0 <= k < j ==> is_echo_of(
                    #[trigger] pks@[primary_pks.len() + k],
                    response.repeat_with@[k],
                    *row,
                ),
        decreases response.repeat_with@.len() - j,
    {
        let k = echo_column(&response.repeat_with[j], row);
        pks.push(k);
        j += 1;
    }
    Some(EventRequest { table_name, event_type, id_value: true, pks, optional_caller })
}

} // verus!
