//! Value normalization: rows as a database backend reports them become a
//! table of portable values.

use vstd::prelude::*;
use crate::error::OrbiterError;

verus! {

/// A value as the backend reports it, tagged with its native kind. A
/// floating-point number is held by its IEEE 754 bit pattern.
#[derive(Clone, Debug, PartialEq, Eq)]
pub enum NativeValue {
    Null,
    Bool(bool),
    SmallInt(i16),
    Integer(i32),
    BigInt(i64),
    Real(u32),
    Double(u64),
    Text(String),
    Blob(Vec<u8>),
    /// Any kind that the backend knows and this library does not.
    Other,
}

/// The mathematical content of a [`NativeValue`].
pub enum NativeView {
    Null,
    Bool(bool),
    SmallInt(int),
    Integer(int),
    BigInt(int),
    Real(u32),
    Double(u64),
    Text(Seq<char>),
    Blob(Seq<u8>),
    Other,
}

impl View for NativeValue {
    type V = NativeView;

    open spec fn view(&self) -> NativeView {
        match *self {
            NativeValue::Null => NativeView::Null,
            NativeValue::Bool(b) => NativeView::Bool(b),
            NativeValue::SmallInt(n) => NativeView::SmallInt(n as int),
            NativeValue::Integer(n) => NativeView::Integer(n as int),
            NativeValue::BigInt(n) => NativeView::BigInt(n as int),
            NativeValue::Real(bits) => NativeView::Real(bits),
            NativeValue::Double(bits) => NativeView::Double(bits),
            NativeValue::Text(s) => NativeView::Text(s@),
            NativeValue::Blob(b) => NativeView::Blob(b@),
            NativeValue::Other => NativeView::Other,
        }
    }
}

/// A value in the one representation that every backend's values are
/// brought to. A floating-point number is held by its IEEE 754 bit pattern,
/// in the precision it came in.
#[derive(Clone, Debug, PartialEq, Eq)]
pub enum NormalizedValue {
    Null,
    Bool(bool),
    Integer(i64),
    Single(u32),
    Double(u64),
    Text(String),
    Blob(Vec<u8>),
}

/// The mathematical content of a [`NormalizedValue`].
pub enum ValueView {
    Null,
    Bool(bool),
    Integer(int),
    Single(u32),
    Double(u64),
    Text(Seq<char>),
    Blob(Seq<u8>),
}

impl View for NormalizedValue {
    type V = ValueView;

    open spec fn view(&self) -> ValueView {
        match *self {
            NormalizedValue::Null => ValueView::Null,
            NormalizedValue::Bool(b) => ValueView::Bool(b),
            NormalizedValue::Integer(n) => ValueView::Integer(n as int),
            NormalizedValue::Single(bits) => ValueView::Single(bits),
            NormalizedValue::Double(bits) => ValueView::Double(bits),
            NormalizedValue::Text(s) => ValueView::Text(s@),
            NormalizedValue::Blob(b) => ValueView::Blob(b@),
        }
    }
}

/// The normalized form of a native value: integers of every width become one
/// integer of the same numeric value, every other covered kind keeps its
/// content, and a kind outside the covered set has no normalized form.
pub open spec fn normalized(value: NativeView) -> Option<ValueView> {
    match value {
        NativeView::Null => Some(ValueView::Null),
        NativeView::Bool(b) => Some(ValueView::Bool(b)),
        NativeView::SmallInt(n) => Some(ValueView::Integer(n)),
        NativeView::Integer(n) => Some(ValueView::Integer(n)),
        NativeView::BigInt(n) => Some(ValueView::Integer(n)),
        NativeView::Real(bits) => Some(ValueView::Single(bits)),
        NativeView::Double(bits) => Some(ValueView::Double(bits)),
        NativeView::Text(s) => Some(ValueView::Text(s)),
        NativeView::Blob(b) => Some(ValueView::Blob(b)),
        NativeView::Other => None,
    }
}

/// A copy of `bytes`.
fn copy_bytes(bytes: &Vec<u8>) -> (out: Vec<u8>)
    ensures
        out@ == bytes@,
{
    let mut out: Vec<u8> = Vec::new();
    let mut i: usize = 0;
    while i < bytes.len()
        invariant
            i <= bytes.len(),
            out@ == bytes@.take(i as int),
        decreases bytes.len() - i,
    {
        out.push(bytes[i]);
        i += 1;
    }
    assert(bytes@.take(i as int) == bytes@);
    out
}

/// Brings one native value to its normalized form.
pub fn normalize_value(value: &NativeValue) -> (result: Result<NormalizedValue, OrbiterError>)
    ensures
        match normalized(value@) {
            Some(v) => result is Ok && result->Ok_0@ == v,
            None => result == Err::<NormalizedValue, OrbiterError>(
                OrbiterError::UnsupportedValueKind,
            ),
        },
{
    match value {
        NativeValue::Null => Ok(NormalizedValue::Null),
        NativeValue::Bool(b) => Ok(NormalizedValue::Bool(*b)),
        NativeValue::SmallInt(n) => Ok(NormalizedValue::Integer(*n as i64)),
        NativeValue::Integer(n) => Ok(NormalizedValue::Integer(*n as i64)),
        NativeValue::BigInt(n) => Ok(NormalizedValue::Integer(*n)),
        NativeValue::Real(bits) => Ok(NormalizedValue::Single(*bits)),
        NativeValue::Double(bits) => Ok(NormalizedValue::Double(*bits)),
        NativeValue::Text(s) => Ok(NormalizedValue::Text(s.clone())),
        NativeValue::Blob(b) => Ok(NormalizedValue::Blob(copy_bytes(b))),
        NativeValue::Other => Err(OrbiterError::UnsupportedValueKind),
    }
}

/// The views of a list of native values, in the same order.
pub open spec fn natives_view(values: Seq<NativeValue>) -> Seq<NativeView> {
    Seq::new(values.len(), |i: int| values[i]@)
}

/// The views of a list of normalized values, in the same order.
pub open spec fn values_view(values: Seq<NormalizedValue>) -> Seq<ValueView> {
    Seq::new(values.len(), |i: int| values[i]@)
}

/// Whether every value of a row has a normalized form.
pub open spec fn all_covered(row: Seq<NativeView>) -> bool {
    forall|i: int| 0 <= i < row.len() ==> normalized(#[trigger] row[i]) is Some
}

/// The normalized form of a row that `all_covered` holds of: value by value,
/// in the same order.
pub open spec fn normalized_row(row: Seq<NativeView>) -> Seq<ValueView> {
    Seq::new(row.len(), |i: int| normalized(row[i])->Some_0)
}

/// Normalizes the values of one row, each on its own. One value without a
/// normalized form fails the whole row.
pub fn normalize_row(row: &Vec<NativeValue>) -> (result: Result<Vec<NormalizedValue>, OrbiterError>)
    ensures
        match result {
            Ok(values) => all_covered(natives_view(row@)) && values_view(values@)
                == normalized_row(natives_view(row@)),
            Err(e) => e == OrbiterError::UnsupportedValueKind && !all_covered(
                natives_view(row@),
            ),
        },
{
    let ghost natives = natives_view(row@);
    let mut values: Vec<NormalizedValue> = Vec::new();
    let mut i: usize = 0;
    while i < row.len()
        invariant
            i <= row.len(),
            natives == natives_view(row@),
            values.len() == i,
            forall|j: int| 0 <= j < i ==> normalized(#[trigger] natives[j]) == Some(values@[j]@),
        decreases row.len() - i,
    {
        match normalize_value(&row[i]) {
            Ok(v) => {
                values.push(v);
            },
            Err(_) => {
                assert(normalized(natives[i as int]) is None);
                return Err(OrbiterError::UnsupportedValueKind);
            },
        }
        i += 1;
    }
    assert(values_view(values@) =~= normalized_row(natives));
    Ok(values)
}


/// One row of a result set, as the backend hands it over: the names of its
/// columns and, position by position, their values.
#[derive(Clone, Debug, PartialEq, Eq)]
pub struct NativeRow {
    pub columns: Vec<String>,
    pub values: Vec<NativeValue>,
}

/// The mathematical content of a [`NativeRow`].
pub struct RowView {
    pub columns: Seq<Seq<char>>,
    pub values: Seq<NativeView>,
}

/// The views of a list of names, in the same order.
pub open spec fn names_view(names: Seq<String>) -> Seq<Seq<char>> {
    Seq::new(names.len(), |i: int| names[i]@)
}

impl View for NativeRow {
    type V = RowView;

    open spec fn view(&self) -> RowView {
        RowView { columns: names_view(self.columns@), values: natives_view(self.values@) }
    }
}

/// The views of a list of rows, in the same order.
pub open spec fn rows_view(rows: Seq<NativeRow>) -> Seq<RowView> {
    Seq::new(rows.len(), |i: int| rows[i]@)
}

/// The result of a request: the names of the columns, the rows of normalized
/// values, and the query that produced them.
#[derive(Clone, Debug, PartialEq, Eq)]
pub struct Table {
    pub head: Vec<String>,
    pub body: Vec<Vec<NormalizedValue>>,
    pub sql_query: String,
}

/// The mathematical content of a [`Table`].
pub struct TableView {
    pub head: Seq<Seq<char>>,
    pub body: Seq<Seq<ValueView>>,
    pub sql_query: Seq<char>,
}

/// The views of the rows of a table's body, in the same order.
pub open spec fn body_view(body: Seq<Vec<NormalizedValue>>) -> Seq<Seq<ValueView>> {
    Seq::new(body.len(), |i: int| values_view(body[i]@))
}

impl View for Table {
    type V = TableView;

    open spec fn view(&self) -> TableView {
        TableView {
            head: names_view(self.head@),
            body: body_view(self.body@),
            sql_query: self.sql_query@,
        }
    }
}

impl TableView {
    /// Every row of the body has one value for each column of the head.
    pub open spec fn aligned(self) -> bool {
        forall|i: int|
            0 <= i < self.body.len() ==> (#[trigger] self.body[i]).len() == self.head.len()
    }
}

impl Default for Table {
    /// The table with no column, no row and no query text.
    fn default() -> (table: Table)
        ensures
            table@.head.len() == 0,
            table@.body.len() == 0,
            table@.sql_query.len() == 0,
    {
        Table { head: Vec::new(), body: Vec::new(), sql_query: String::new() }
    }
}

/// Whether every value of every row has a normalized form.
pub open spec fn rows_covered(rows: Seq<RowView>) -> bool {
    forall|i: int| 0 <= i < rows.len() ==> all_covered((#[trigger] rows[i]).values)
}

/// The table that a result set normalizes to. Without rows it has neither
/// head nor body. With rows, the head holds the column names of the first
/// row and the body the normalized form of each row, in order. The query text
/// is kept either way. `None`: some value has no normalized form.
pub open spec fn table_of(sql_query: Seq<char>, rows: Seq<RowView>) -> Option<TableView> {
    if rows.len() == 0 {
        Some(TableView { head: Seq::empty(), body: Seq::empty(), sql_query })
    } else if rows_covered(rows) {
        Some(
            TableView {
                head: rows[0].columns,
                body: Seq::new(rows.len(), |i: int| normalized_row(rows[i].values)),
                sql_query,
            },
        )
    } else {
        None
    }
}

/// Whether every row has as many values as the first row has columns, which
/// is what a backend hands over for one result set.
pub open spec fn uniform(rows: Seq<RowView>) -> bool {
    forall|i: int|
        0 <= i < rows.len() ==> (#[trigger] rows[i]).values.len() == rows[0].columns.len()
}

/// A copy of `names`.
fn copy_names(names: &Vec<String>) -> (out: Vec<String>)
    ensures
        out@ == names@,
{
    let mut out: Vec<String> = Vec::new();
    let mut i: usize = 0;
    while i < names.len()
        invariant
            i <= names.len(),
            out@ == names@.take(i as int),
        decreases names.len() - i,
    {
        out.push(names[i].clone());
        i += 1;
    }
    assert(names@.take(i as int) == names@);
    out
}

/// Normalizes a result set into a table that keeps the query text. Either
/// the whole table is returned or, where one value has no normalized form,
/// none of it.
pub fn build_table(sql_query: String, rows: &Vec<NativeRow>) -> (result: Result<
    Table,
    OrbiterError,
>)
    ensures
        match table_of(sql_query@, rows_view(rows@)) {
            Some(t) => result is Ok && result->Ok_0@ == t,
            None => result == Err::<Table, OrbiterError>(OrbiterError::UnsupportedValueKind),
        },
        rows.len() == 0 ==> result is Ok && result->Ok_0@ == (TableView {
            head: Seq::empty(),
            body: Seq::empty(),
            sql_query: sql_query@,
        }),
        result is Ok && uniform(rows_view(rows@)) ==> result->Ok_0@.aligned(),
{
    let ghost views = rows_view(rows@);
    if rows.len() == 0 {
        let table = Table { head: Vec::new(), body: Vec::new(), sql_query };
        assert(table@.head =~= Seq::empty());
        assert(table@.body =~= Seq::empty());
        return Ok(table);
    }
    let head = copy_names(&rows[0].columns);
    let mut body: Vec<Vec<NormalizedValue>> = Vec::new();
    let mut i: usize = 0;
    while i < rows.len()
        invariant
            i <= rows.len(),
            views == rows_view(rows@),
            body.len() == i,
            forall|j: int| 0 <= j < i ==> all_covered((#[trigger] views[j]).values),
            forall|j: int|
                0 <= j < i ==> values_view((#[trigger] body@[j])@) == normalized_row(
                    views[j].values,
                ),
        decreases rows.len() - i,
    {
        match normalize_row(&rows[i].values) {
            Ok(values) => {
                body.push(values);
            },
            Err(_) => {
                assert(!all_covered(views[i as int].values));
                return Err(OrbiterError::UnsupportedValueKind);
            },
        }
        i += 1;
    }
    let table = Table { head, body, sql_query };
    assert(table@.body =~= Seq::new(views.len(), |i: int| normalized_row(views[i].values)));
    assert(uniform(views) ==> table@.aligned()) by {
        if uniform(views) {
            assert forall|i: int| 0 <= i < table@.body.len() implies (
            #[trigger] table@.body[i]).len() == table@.head.len() by {
                assert(views[i].values.len() == views[0].columns.len());
            }
        }
    }
    Ok(table)
}

/// A result set of `rows.len()` rows, each with `columns` columns and as many
/// values, normalizes to a head of `columns` names and a body of
/// `rows.len()` rows of `columns` values each.
pub proof fn lemma_table_shape(sql_query: Seq<char>, rows: Seq<RowView>, columns: nat)
    requires
        rows.len() > 0,
        forall|i: int|
            0 <= i < rows.len() ==> (#[trigger] rows[i]).columns.len() == columns
                && rows[i].values.len() == columns,
        table_of(sql_query, rows) is Some,
    ensures
        table_of(sql_query, rows)->Some_0.head.len() == columns,
        table_of(sql_query, rows)->Some_0.body.len() == rows.len(),
        table_of(sql_query, rows)->Some_0.aligned(),
{
    assert(rows[0].columns.len() == columns);
    let t = table_of(sql_query, rows)->Some_0;
    assert forall|i: int| 0 <= i < t.body.len() implies (#[trigger] t.body[i]).len()
        == t.head.len() by {
        assert(rows[i].values.len() == columns);
    }
}

/// One value without a normalized form, anywhere in a result set, leaves the
/// whole result set without a table.
pub proof fn lemma_uncovered_value_fails(
    sql_query: Seq<char>,
    rows: Seq<RowView>,
    row: int,
    column: int,
)
    requires
        0 <= row < rows.len(),
        0 <= column < rows[row].values.len(),
        normalized(rows[row].values[column]) is None,
    ensures
        table_of(sql_query, rows) is None,
{
    assert(!all_covered(rows[row].values));
}

/// A result set without rows gives a table without head and body that still
/// holds the query text.
pub proof fn lemma_no_rows(sql_query: Seq<char>)
    ensures
        table_of(sql_query, Seq::empty()) == Some(
            TableView { head: Seq::empty(), body: Seq::empty(), sql_query },
        ),
{
}

} // verus!
