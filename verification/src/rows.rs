use std::sync::Arc;
use vstd::prelude::*;

use crate::codec::{decode_value, spec_decode};
use crate::errors::Error;
use crate::foreign::{share_schema, str_eq};
use crate::tags::{family_matches, target_matches_tag, TargetType, TypeTag};
use crate::values::{val_model, ValModel, Value};

verus! {

/// One column descriptor of a result set: the column's name and the wire tag
/// that says how its bytes are encoded.  Built once when the result schema is
/// parsed, never mutated.
#[derive(Debug)]
pub struct ColumnSpec {
    pub name: String,
    pub wire_type: TypeTag,
}

/// The ordered column descriptors of one result set, shared read-only by
/// every row of that set.
#[derive(Debug)]
pub struct ResultSchema {
    pub specs: Vec<ColumnSpec>,
}

impl View for ResultSchema {
    type V = Seq<ColumnSpec>;

    open spec fn view(&self) -> Seq<ColumnSpec> {
        self.specs@
    }
}

/// The raw payload of one column in one row.  A present buffer may be empty;
/// emptiness and absence are different wire states and decode differently.
#[derive(Debug, PartialEq, Eq)]
pub enum RawColumn {
    /// The column carries these bytes (possibly none).
    Present(Vec<u8>),
    /// The column is null.
    Absent,
}

/// The bytes of a raw column, or `None` for a null column.
pub open spec fn raw_model(c: RawColumn) -> Option<Seq<u8>> {
    match c {
        RawColumn::Present(v) => Some(v@),
        RawColumn::Absent => None,
    }
}

/// An already-parsed result-set body: the shared schema and one sequence of
/// raw column buffers per row.  The upstream parser guarantees that every row
/// has exactly one buffer per schema column.
pub struct ResultBody {
    pub schema: Arc<ResultSchema>,
    pub rows_content: Vec<Vec<RawColumn>>,
}

/// One decoded row: a shared reference to the result schema and this row's
/// raw column buffers, positionally aligned with the schema.  Immutable after
/// construction.
#[derive(Debug)]
pub struct Row {
    schema: Arc<ResultSchema>,
    columns: Vec<RawColumn>,
}

/// The index of the first column carrying `name`, if any; duplicate names are
/// not disambiguated, the first occurrence wins.
pub open spec fn spec_index_of_name(specs: Seq<ColumnSpec>, name: Seq<char>) -> Option<int>
    decreases specs.len(),
{
    if specs.len() == 0 {
        None
    } else if specs[0].name@ == name {
        Some(0)
    } else {
        match spec_index_of_name(specs.drop_first(), name) {
            Some(i) => Some(i + 1),
            None => None,
        }
    }
}

/// What [`spec_index_of_name`] returns is exactly the first match: a found
/// index carries the name and nothing before it does; `None` means no column
/// carries the name.
pub proof fn lemma_index_of_name_props(specs: Seq<ColumnSpec>, name: Seq<char>)
    ensures
        match spec_index_of_name(specs, name) {
            Some(i) => 0 <= i < specs.len() && specs[i].name@ == name && (forall|j: int|
                0 <= j < i ==> specs[j].name@ != name),
            None => forall|j: int| 0 <= j < specs.len() ==> specs[j].name@ != name,
        },
    decreases specs.len(),
{
    if specs.len() > 0 {
        lemma_index_of_name_props(specs.drop_first(), name);
        assert(forall|j: int|
            1 <= j < specs.len() ==> specs[j] == specs.drop_first()[j - 1]);
    }
}

/// The `(descriptor, raw buffer)` pair located by name, if the name matches.
pub open spec fn spec_locate_by_name(row: Row, name: Seq<char>) -> Option<(ColumnSpec, RawColumn)> {
    match spec_index_of_name(row.spec_schema(), name) {
        Some(i) => Some((row.spec_schema()[i], row.spec_columns()[i])),
        None => None,
    }
}

/// The `(descriptor, raw buffer)` pair located by position, if in range.
pub open spec fn spec_locate_by_index(row: Row, index: int) -> Option<(ColumnSpec, RawColumn)> {
    if 0 <= index < row.spec_schema().len() {
        Some((row.spec_schema()[index], row.spec_columns()[index]))
    } else {
        None
    }
}

/// What a typed accessor owes for one located column: `None` for a null
/// column whatever the target; `TypeMismatch` when the declared tag's family
/// does not fit the target; otherwise exactly what decoding the bytes under
/// the declared tag yields.
pub open spec fn spec_get(
    spec: ColumnSpec,
    col: RawColumn,
    target: TargetType,
) -> Result<Option<ValModel>, Error> {
    match raw_model(col) {
        None => Ok(None),
        Some(bytes) => if !family_matches(target, spec.wire_type) {
            Err(Error::TypeMismatch)
        } else {
            match spec_decode(spec.wire_type, bytes) {
                Ok(v) => Ok(Some(v)),
                Err(e) => Err(e),
            }
        },
    }
}

/// The owed result of a by-name access: `ColumnNotLocated` when no column
/// carries the name, else [`spec_get`] on the first matching column.
pub open spec fn spec_get_by_name(row: Row, name: Seq<char>, target: TargetType) -> Result<
    Option<ValModel>,
    Error,
> {
    match spec_index_of_name(row.spec_schema(), name) {
        None => Err(Error::ColumnNotLocated),
        Some(i) => spec_get(row.spec_schema()[i], row.spec_columns()[i], target),
    }
}

/// The owed result of a by-index access: `ColumnNotLocated` out of range,
/// else [`spec_get`] on the column at that position.
pub open spec fn spec_get_by_index(row: Row, index: int, target: TargetType) -> Result<
    Option<ValModel>,
    Error,
> {
    if 0 <= index < row.spec_schema().len() {
        spec_get(row.spec_schema()[index], row.spec_columns()[index], target)
    } else {
        Err(Error::ColumnNotLocated)
    }
}

/// The model of an accessor result.
pub open spec fn access_model(r: Result<Option<Value>, Error>) -> Result<Option<ValModel>, Error> {
    match r {
        Ok(Some(v)) => Ok(Some(val_model(v))),
        Ok(None) => Ok(None),
        Err(e) => Err(e),
    }
}

impl Row {
    /// The column descriptors this row is aligned with.
    pub closed spec fn spec_schema(self) -> Seq<ColumnSpec> {
        self.schema@
    }

    /// This row's raw column buffers.
    pub closed spec fn spec_columns(self) -> Seq<RawColumn> {
        self.columns@
    }

    /// Positional invariant: one raw buffer per schema column.
    pub closed spec fn wf(self) -> bool {
        self.columns@.len() == self.schema@.len()
    }

    /// Builds one `Row` per raw-row entry of a result body.  Every row shares
    /// the one schema; only the raw buffers are row-owned.  Construction has
    /// no error path: the upstream parser owes the arity of each entry.
    pub fn from_frame_body(body: ResultBody) -> (rows: Vec<Row>)
        requires
            forall|i: int|
                0 <= i < body.rows_content@.len() ==> body.rows_content@[i]@.len()
                    == body.schema@.len(),
        ensures
            rows@.len() == body.rows_content@.len(),
            forall|i: int|
                0 <= i < rows@.len() ==> (#[trigger] rows@[i]).spec_schema() == body.schema@
                    && rows@[i].spec_columns() == body.rows_content@[i]@ && rows@[i].wf(),
    {
        let ResultBody { schema, rows_content } = body;
        let mut content: Vec<Vec<RawColumn>> = rows_content;
        let ghost orig: Seq<Vec<RawColumn>> = content@;
        let mut rows: Vec<Row> = Vec::new();
        while content.len() > 0
            invariant
                content@ == orig.take(content@.len() as int),
                rows@.len() + content@.len() == orig.len(),
                schema@ == body.schema@,
                forall|j: int|
                    0 <= j < rows@.len() ==> (#[trigger] rows@[j]).spec_schema() == body.schema@
                        && rows@[j].spec_columns() == orig[content@.len() + j]@,
            decreases content@.len(),
        {
            let cols: Vec<RawColumn> = content.pop().unwrap();
            let row = Row { schema: share_schema(&schema), columns: cols };
            let ghost old_rows: Seq<Row> = rows@;
            rows.insert(0, row);
            proof {
                assert(content@ =~= orig.take(content@.len() as int));
                assert(rows@ =~= seq![row] + old_rows);
                assert(orig.take((content@.len() + 1) as int).last() == orig[content@.len() as int]);
            }
        }
        rows
    }

    /// Locates the first column carrying `name`, paired with this row's raw
    /// buffer for it; `None` when no column carries the name.
    pub fn get_col_spec_by_name<'a>(&'a self, name: &str) -> (r: Option<
        (&'a ColumnSpec, &'a RawColumn),
    >)
        requires
            self.wf(),
        ensures
            match spec_locate_by_name(*self, name@) {
                Some(p) => r matches Some(q) && *q.0 == p.0 && *q.1 == p.1,
                None => r is None,
            },
    {
        let n: usize = self.schema.specs.len();
        let mut i: usize = 0;
        while i < n
            invariant
                self.wf(),
                i <= n,
                n == self.spec_schema().len(),
                forall|j: int| 0 <= j < i ==> (#[trigger] self.spec_schema()[j]).name@ != name@,
            decreases n - i,
        {
            if str_eq(self.schema.specs[i].name.as_str(), name) {
                proof {
                    lemma_index_of_name_props(self.spec_schema(), name@);
                }
                return Some((&self.schema.specs[i], &self.columns[i]));
            }
            i = i + 1;
        }
        proof {
            lemma_index_of_name_props(self.spec_schema(), name@);
        }
        None
    }

    /// Pairs the descriptor and the raw buffer at one position; `None` when
    /// the index is out of range.
    pub fn get_col_spec_by_index(&self, index: usize) -> (r: Option<(&ColumnSpec, &RawColumn)>)
        requires
            self.wf(),
        ensures
            match spec_locate_by_index(*self, index as int) {
                Some(p) => r matches Some(q) && *q.0 == p.0 && *q.1 == p.1,
                None => r is None,
            },
    {
        if index < self.schema.specs.len() {
            Some((&self.schema.specs[index], &self.columns[index]))
        } else {
            None
        }
    }

    /// Decodes the column carrying `name` into the requested target type.
    /// Returns `Ok(None)` for a null column, `ColumnNotLocated` for an
    /// unknown name, `TypeMismatch` across tag families, and a decode error
    /// for malformed bytes — exactly as [`spec_get_by_name`] states.
    pub fn get_by_name(&self, name: &str, target: TargetType) -> (r: Result<Option<Value>, Error>)
        requires
            self.wf(),
        ensures
            access_model(r) == spec_get_by_name(*self, name@, target),
    {
        match self.get_col_spec_by_name(name) {
            None => Err(Error::ColumnNotLocated),
            Some(p) => decode_located(p.0, p.1, target),
        }
    }

    /// Decodes the column at `index` into the requested target type, with the
    /// same outcomes as [`get_by_name`] but located positionally — exactly as
    /// [`spec_get_by_index`] states.
    pub fn get_by_index(&self, index: usize, target: TargetType) -> (r: Result<
        Option<Value>,
        Error,
    >)
        requires
            self.wf(),
        ensures
            access_model(r) == spec_get_by_index(*self, index as int, target),
    {
        match self.get_col_spec_by_index(index) {
            None => Err(Error::ColumnNotLocated),
            Some(p) => decode_located(p.0, p.1, target),
        }
    }
}

/// Decodes one located `(descriptor, raw buffer)` pair as [`spec_get`] states.
fn decode_located(spec: &ColumnSpec, col: &RawColumn, target: TargetType) -> (r: Result<
    Option<Value>,
    Error,
>)
    ensures
        access_model(r) == spec_get(*spec, *col, target),
{
    match col {
        RawColumn::Absent => Ok(None),
        RawColumn::Present(bytes) => {
            if !target_matches_tag(target, &spec.wire_type) {
                Err(Error::TypeMismatch)
            } else {
                match decode_value(&spec.wire_type, bytes.as_slice()) {
                    Ok(v) => Ok(Some(v)),
                    Err(e) => Err(e),
                }
            }
        },
    }
}

/// Law: locating by a name and by that name's own positional index give the
/// identical `(descriptor, raw buffer)` pair, and the typed accessors then
/// agree on every target type.
pub proof fn lemma_name_and_index_locate_same(
    row: Row,
    name: Seq<char>,
    i: int,
    target: TargetType,
)
    requires
        row.wf(),
        spec_index_of_name(row.spec_schema(), name) == Some(i),
    ensures
        0 <= i < row.spec_schema().len(),
        spec_locate_by_name(row, name) == spec_locate_by_index(row, i),
        spec_get_by_name(row, name, target) == spec_get_by_index(row, i, target),
{
    lemma_index_of_name_props(row.spec_schema(), name);
}

/// Law: a null column decodes to `None` for every requested target type,
/// never to an error.
pub proof fn lemma_absent_decodes_to_none(spec: ColumnSpec, col: RawColumn, target: TargetType)
    requires
        col is Absent,
    ensures
        spec_get(spec, col, target) == Ok::<Option<ValModel>, Error>(None),
{
}

/// Law: a present column whose declared tag family does not fit the requested
/// target always fails with `TypeMismatch`, never yields a value.
pub proof fn lemma_family_mismatch_is_type_error(
    spec: ColumnSpec,
    col: RawColumn,
    target: TargetType,
)
    requires
        col matches RawColumn::Present(_),
        !family_matches(target, spec.wire_type),
    ensures
        spec_get(spec, col, target) == Err::<Option<ValModel>, Error>(Error::TypeMismatch),
{
}

/// Law: a by-name access to a null column succeeds with `None` whatever the
/// requested target type.
pub proof fn lemma_absent_column_none_by_name(
    row: Row,
    name: Seq<char>,
    i: int,
    target: TargetType,
)
    requires
        row.wf(),
        spec_index_of_name(row.spec_schema(), name) == Some(i),
        row.spec_columns()[i] is Absent,
    ensures
        spec_get_by_name(row, name, target) == Ok::<Option<ValModel>, Error>(None),
{
}

/// Law: a by-name access to a present column of a mismatched tag family fails
/// with `TypeMismatch` whatever the bytes hold.
pub proof fn lemma_family_mismatch_by_name(
    row: Row,
    name: Seq<char>,
    i: int,
    target: TargetType,
)
    requires
        row.wf(),
        spec_index_of_name(row.spec_schema(), name) == Some(i),
        row.spec_columns()[i] matches RawColumn::Present(_),
        !family_matches(target, row.spec_schema()[i].wire_type),
    ensures
        spec_get_by_name(row, name, target) == Err::<Option<ValModel>, Error>(Error::TypeMismatch),
{
}

/// Law: accessing is deterministic and idempotent.  The accessor contracts
/// pin each result's model to a function of the row, the lookup key and the
/// target alone, so any two results meeting the same contract agree; a row is
/// immutable, hence repeated calls return equal values.
pub proof fn lemma_access_deterministic(
    row: Row,
    name: Seq<char>,
    target: TargetType,
    r1: Result<Option<Value>, Error>,
    r2: Result<Option<Value>, Error>,
)
    requires
        access_model(r1) == spec_get_by_name(row, name, target),
        access_model(r2) == spec_get_by_name(row, name, target),
    ensures
        access_model(r1) == access_model(r2),
{
}

} // verus!
