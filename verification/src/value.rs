//! The dynamic value model of the proxy, and the conversions between it and
//! what the SQL engine binds and reports.

use vstd::prelude::*;
use crate::encoding::{base64_standard, encodable_len, encode_standard, fits_encoding};
use crate::text::same_text;

verus! {

/// A number as the wire format carries it. A real is held by its IEEE-754
/// binary64 bit pattern.
#[derive(Clone, Copy, Debug, PartialEq, Eq)]
pub enum Number {
    /// An integer within the signed 64-bit range.
    Integer(i64),
    /// A non-negative integer given without a sign; it may exceed `i64::MAX`.
    Unsigned(u64),
    /// A real number, by its binary64 bits.
    Real(u64),
}

/// A dynamically typed value: a query parameter or a result cell.
#[derive(Clone, Debug, PartialEq, Eq)]
pub enum Value {
    Null,
    Bool(bool),
    Number(Number),
    Text(String),
    /// A list; the store never reads its items.
    Array,
    /// A keyed record; the store never reads its entries.
    Object,
}

/// The mathematical content of a [`Value`].
pub enum ValueModel {
    Null,
    Bool(bool),
    Number(Number),
    Text(Seq<char>),
    Array,
    Object,
}

impl View for Value {
    type V = ValueModel;

    open spec fn view(&self) -> ValueModel {
        match self {
            Value::Null => ValueModel::Null,
            Value::Bool(b) => ValueModel::Bool(*b),
            Value::Number(n) => ValueModel::Number(*n),
            Value::Text(s) => ValueModel::Text(s@),
            Value::Array => ValueModel::Array,
            Value::Object => ValueModel::Object,
        }
    }
}

/// What is handed to the engine for one placeholder.
#[derive(Clone, Debug, PartialEq, Eq)]
pub enum Binding {
    Null,
    Bool(bool),
    Integer(i64),
    /// A real number, by its binary64 bits.
    Real(u64),
    Text(String),
}

/// The mathematical content of a [`Binding`].
pub enum BindingModel {
    Null,
    Bool(bool),
    Integer(int),
    Real(u64),
    Text(Seq<char>),
}

impl View for Binding {
    type V = BindingModel;

    open spec fn view(&self) -> BindingModel {
        match self {
            Binding::Null => BindingModel::Null,
            Binding::Bool(b) => BindingModel::Bool(*b),
            Binding::Integer(i) => BindingModel::Integer(*i as int),
            Binding::Real(bits) => BindingModel::Real(*bits),
            Binding::Text(s) => BindingModel::Text(s@),
        }
    }
}

/// The significand, in units of 2^11, of the real nearest to `n`, for
/// 2^63 <= n < 2^64: `n / 2^11` rounded to the nearest integer, a tie going to
/// the even one.
pub open spec fn rounded_significand(n: int) -> int {
    let q = n / 2048;
    let r = n % 2048;
    if r > 1024 || (r == 1024 && q % 2 == 1) {
        q + 1
    } else {
        q
    }
}

/// The binary64 bits of the real nearest to `n`, for 2^63 <= n < 2^64: the
/// exponent field holds 1086 (that is 2^63) and the fraction field what the
/// significand has beyond 2^52; a significand of 2^53 carries into the exponent.
pub open spec fn nearest_real_bits(n: int) -> int {
    1085 * 0x10_0000_0000_0000 + rounded_significand(n)
}

/// The distance between two integers.
pub open spec fn distance(a: int, b: int) -> int {
    if a <= b {
        b - a
    } else {
        a - b
    }
}

/// The rounded significand is the nearest one: no multiple of 2^11 is nearer
/// to `n` than the one it stands for, and of two that are equally near it
/// stands for the one with the even significand.
pub proof fn lemma_rounded_significand_is_nearest(n: int, k: int)
    requires
        0 <= n,
    ensures
        distance(rounded_significand(n) * 2048, n) <= 1024,
        distance(rounded_significand(n) * 2048, n) <= distance(k * 2048, n),
        distance(rounded_significand(n) * 2048, n) == distance(k * 2048, n) ==> k
            == rounded_significand(n) || rounded_significand(n) % 2 == 0,
{
    let q = n / 2048;
    let r = n % 2048;
    assert(n == q * 2048 + r);
    if k <= q {
        assert(k * 2048 <= q * 2048);
    } else {
        assert(k * 2048 >= (q + 1) * 2048);
    }
    if k < q {
        assert(k * 2048 <= (q - 1) * 2048);
    }
    if k > q + 1 {
        assert(k * 2048 >= (q + 2) * 2048);
    }
}

/// For an integer from 2^63 up to 2^64, the bits of the nearest real hold the
/// sign 0, the exponent of 2^63 and the rounded significand without its
/// leading one; where the significand rounds up to 2^53 the bits are those of
/// 2^64.
pub proof fn lemma_nearest_real_layout(n: int)
    requires
        0x8000_0000_0000_0000 <= n < 0x1_0000_0000_0000_0000,
    ensures
        0x10_0000_0000_0000 <= rounded_significand(n) <= 0x20_0000_0000_0000,
        nearest_real_bits(n) == 1086 * 0x10_0000_0000_0000 + (rounded_significand(n)
            - 0x10_0000_0000_0000),
        rounded_significand(n) < 0x20_0000_0000_0000 ==> nearest_real_bits(n)
            / 0x10_0000_0000_0000 == 1086,
        rounded_significand(n) == 0x20_0000_0000_0000 ==> nearest_real_bits(n) == 1087
            * 0x10_0000_0000_0000,
{
}

/// The binding of a parameter: text as text, a number as an integer where it
/// has one in the signed 64-bit range and else as the nearest real, a boolean as
/// a boolean, and null, lists and records as SQL null.
pub open spec fn binding_of(v: ValueModel) -> BindingModel {
    match v {
        ValueModel::Text(s) => BindingModel::Text(s),
        ValueModel::Number(Number::Integer(i)) => BindingModel::Integer(i as int),
        ValueModel::Number(Number::Unsigned(u)) => if u <= i64::MAX {
            BindingModel::Integer(u as int)
        } else {
            BindingModel::Real(nearest_real_bits(u as int) as u64)
        },
        ValueModel::Number(Number::Real(bits)) => BindingModel::Real(bits),
        ValueModel::Bool(b) => BindingModel::Bool(b),
        ValueModel::Null => BindingModel::Null,
        ValueModel::Array => BindingModel::Null,
        ValueModel::Object => BindingModel::Null,
    }
}

/// The bits of the real nearest to an integer above `i64::MAX`.
pub fn unsigned_to_real_bits(n: u64) -> (bits: u64)
    requires
        n > i64::MAX,
    ensures
        bits == nearest_real_bits(n as int),
        0x43E0_0000_0000_0000 <= bits <= 0x43F0_0000_0000_0000,
{
    let q: u64 = n / 2048;
    let r: u64 = n % 2048;
    let significand: u64 = if r > 1024 || (r == 1024 && q % 2 == 1) {
        q + 1
    } else {
        q
    };
    0x43D0_0000_0000_0000u64 + significand
}

/// The binding of one parameter.
pub fn bind_param(param: &Value) -> (b: Binding)
    ensures
        b@ == binding_of(param@),
{
    match param {
        Value::Text(s) => Binding::Text(s.clone()),
        Value::Number(Number::Integer(i)) => Binding::Integer(*i),
        Value::Number(Number::Unsigned(u)) => {
            if *u <= 0x7FFF_FFFF_FFFF_FFFFu64 {
                Binding::Integer(*u as i64)
            } else {
                Binding::Real(unsigned_to_real_bits(*u))
            }
        },
        Value::Number(Number::Real(bits)) => Binding::Real(*bits),
        Value::Bool(b) => Binding::Bool(*b),
        Value::Null => Binding::Null,
        Value::Array => Binding::Null,
        Value::Object => Binding::Null,
    }
}

/// The bindings of a parameter list, position by position.
pub open spec fn bindings_of(params: Seq<Value>) -> Seq<BindingModel> {
    Seq::new(params.len(), |i: int| binding_of(params[i]@))
}

/// The views of a list of bindings.
pub open spec fn binding_views(bindings: Seq<Binding>) -> Seq<BindingModel> {
    Seq::new(bindings.len(), |i: int| bindings[i]@)
}

/// Binds the parameters positionally, in the order supplied.
pub fn bind_params(params: &Vec<Value>) -> (bindings: Vec<Binding>)
    ensures
        binding_views(bindings@) == bindings_of(params@),
{
    let mut bindings: Vec<Binding> = Vec::new();
    let mut i: usize = 0;
    while i < params.len()
        invariant
            i <= params.len(),
            bindings.len() == i,
            forall|j: int| 0 <= j < i ==> bindings[j]@ == binding_of(params[j]@),
        decreases params.len() - i,
    {
        bindings.push(bind_param(&params[i]));
        i = i + 1;
    }
    assert(binding_views(bindings@) =~= bindings_of(params@));
    bindings
}

/// The decoding branch that a reported column type selects.
#[derive(Clone, Copy, Debug, PartialEq, Eq)]
pub enum ColumnKind {
    Integer,
    Real,
    Text,
    Blob,
    /// Any other type name: decoded as text, as far as that works.
    Other,
}

/// The branch for a type name: `INTEGER`, `REAL`, `TEXT` and `BLOB` select
/// their own, every other name the text fallback.
pub open spec fn kind_of(declared: Seq<char>) -> ColumnKind {
    if declared == "INTEGER"@ {
        ColumnKind::Integer
    } else if declared == "REAL"@ {
        ColumnKind::Real
    } else if declared == "TEXT"@ {
        ColumnKind::Text
    } else if declared == "BLOB"@ {
        ColumnKind::Blob
    } else {
        ColumnKind::Other
    }
}

/// Selects the decoding branch from the type name that the engine reports.
pub fn column_kind(declared: &str) -> (kind: ColumnKind)
    ensures
        kind == kind_of(declared@),
{
    if same_text(declared, "INTEGER") {
        ColumnKind::Integer
    } else if same_text(declared, "REAL") {
        ColumnKind::Real
    } else if same_text(declared, "TEXT") {
        ColumnKind::Text
    } else if same_text(declared, "BLOB") {
        ColumnKind::Blob
    } else {
        ColumnKind::Other
    }
}

/// What reading one cell gave, in the native type of its branch.
#[derive(Clone, Debug, PartialEq, Eq)]
pub enum Fetched {
    Integer(i64),
    /// A real number, by its binary64 bits.
    Real(u64),
    Text(String),
    Blob(Vec<u8>),
    /// The cell holds SQL null.
    Null,
    /// The cell could not be read as the type of its branch.
    Failed,
}

/// The mathematical content of a [`Fetched`].
pub enum FetchedModel {
    Integer(int),
    Real(u64),
    Text(Seq<char>),
    Blob(Seq<u8>),
    Null,
    Failed,
}

impl View for Fetched {
    type V = FetchedModel;

    open spec fn view(&self) -> FetchedModel {
        match self {
            Fetched::Integer(i) => FetchedModel::Integer(*i as int),
            Fetched::Real(bits) => FetchedModel::Real(*bits),
            Fetched::Text(s) => FetchedModel::Text(s@),
            Fetched::Blob(bytes) => FetchedModel::Blob(bytes@),
            Fetched::Null => FetchedModel::Null,
            Fetched::Failed => FetchedModel::Failed,
        }
    }
}

/// Whether binary64 bits stand for a finite number: the exponent field is not
/// all ones.
pub open spec fn is_finite_bits(bits: u64) -> bool {
    (bits as int / 0x10_0000_0000_0000) % 2048 != 2047
}

/// The value of a cell: an integer, a finite real and text as themselves, a
/// blob as its base64 text, and SQL null, a failed read, a real that is not
/// finite and a blob too long to encode as null.
pub open spec fn decoded(cell: FetchedModel) -> ValueModel {
    match cell {
        FetchedModel::Integer(i) => ValueModel::Number(Number::Integer(i as i64)),
        FetchedModel::Real(bits) => if is_finite_bits(bits) {
            ValueModel::Number(Number::Real(bits))
        } else {
            ValueModel::Null
        },
        FetchedModel::Text(s) => ValueModel::Text(s),
        FetchedModel::Blob(bytes) => if encodable_len(bytes.len()) {
            ValueModel::Text(base64_standard(bytes))
        } else {
            ValueModel::Null
        },
        FetchedModel::Null => ValueModel::Null,
        FetchedModel::Failed => ValueModel::Null,
    }
}

/// The value of a real cell.
pub fn real_value(bits: u64) -> (v: Value)
    ensures
        v@ == decoded(FetchedModel::Real(bits)),
{
    if (bits / 0x10_0000_0000_0000u64) % 2048 != 2047 {
        Value::Number(Number::Real(bits))
    } else {
        Value::Null
    }
}

/// The value of a blob cell, given the base64 text of its bytes.
pub fn blob_value(encoded: String) -> (v: Value)
    ensures
        v@ == ValueModel::Text(encoded@),
{
    Value::Text(encoded)
}

/// Re-encodes one cell into the value model. Nothing aborts the row: what
/// cannot be represented becomes null.
pub fn sqlx_value_to_json(cell: &Fetched) -> (v: Value)
    ensures
        v@ == decoded(cell@),
{
    match cell {
        Fetched::Integer(i) => Value::Number(Number::Integer(*i)),
        Fetched::Real(bits) => real_value(*bits),
        Fetched::Text(s) => Value::Text(s.clone()),
        Fetched::Blob(bytes) => {
            if fits_encoding(bytes.len()) {
                blob_value(encode_standard(bytes.as_slice()))
            } else {
                Value::Null
            }
        },
        Fetched::Null => Value::Null,
        Fetched::Failed => Value::Null,
    }
}

/// One cell of a result row as the engine hands it out: the column's name and
/// what reading it gave.
#[derive(Clone, Debug, PartialEq, Eq)]
pub struct RawCell {
    pub column: String,
    pub value: Fetched,
}

/// A statement for the proxy: SQL text and its positional parameters.
#[derive(Clone, Debug, PartialEq, Eq)]
pub struct SQLQuery {
    pub sql: String,
    pub params: Vec<Value>,
}

/// One result row: the column names and, position by position, their values.
#[derive(Clone, Debug, PartialEq, Eq)]
pub struct SQLRow {
    pub columns: Vec<String>,
    pub rows: Vec<Value>,
}

/// The mathematical content of an [`SQLRow`].
pub struct RowModel {
    pub columns: Seq<Seq<char>>,
    pub rows: Seq<ValueModel>,
}

impl View for SQLRow {
    type V = RowModel;

    open spec fn view(&self) -> RowModel {
        RowModel {
            columns: Seq::new(self.columns@.len(), |i: int| self.columns@[i]@),
            rows: Seq::new(self.rows@.len(), |i: int| self.rows@[i]@),
        }
    }
}

/// The row that a sequence of cells re-encodes to: the names in order, and
/// each cell decoded on its own.
pub open spec fn row_of(cells: Seq<RawCell>) -> RowModel {
    RowModel {
        columns: Seq::new(cells.len(), |i: int| cells[i].column@),
        rows: Seq::new(cells.len(), |i: int| decoded(cells[i].value@)),
    }
}

/// Re-encodes one result row. The row has as many values as columns.
pub fn row_to_sql_row(cells: &Vec<RawCell>) -> (row: SQLRow)
    ensures
        row@ == row_of(cells@),
        row.columns@.len() == cells@.len(),
        row.rows@.len() == cells@.len(),
{
    let mut columns: Vec<String> = Vec::new();
    let mut rows: Vec<Value> = Vec::new();
    let mut i: usize = 0;
    while i < cells.len()
        invariant
            i <= cells.len(),
            columns.len() == i,
            rows.len() == i,
            forall|j: int| 0 <= j < i ==> columns[j]@ == cells[j].column@,
            forall|j: int| 0 <= j < i ==> rows[j]@ == decoded(cells[j].value@),
        decreases cells.len() - i,
    {
        columns.push(cells[i].column.clone());
        rows.push(sqlx_value_to_json(&cells[i].value));
        i = i + 1;
    }
    let row = SQLRow { columns, rows };
    assert(row@.columns =~= row_of(cells@).columns);
    assert(row@.rows =~= row_of(cells@).rows);
    row
}

/// The rows that a sequence of raw rows re-encodes to, in the engine's order.
pub open spec fn rows_of(raw: Seq<Vec<RawCell>>) -> Seq<RowModel> {
    Seq::new(raw.len(), |i: int| row_of(raw[i]@))
}

/// The views of a list of rows.
pub open spec fn row_views(rows: Seq<SQLRow>) -> Seq<RowModel> {
    Seq::new(rows.len(), |i: int| rows[i]@)
}

/// Re-encodes all rows of one result, keeping their order.
pub fn rows_to_sql_rows(raw: &Vec<Vec<RawCell>>) -> (rows: Vec<SQLRow>)
    ensures
        row_views(rows@) == rows_of(raw@),
{
    let mut rows: Vec<SQLRow> = Vec::new();
    let mut i: usize = 0;
    while i < raw.len()
        invariant
            i <= raw.len(),
            rows.len() == i,
            forall|j: int| 0 <= j < i ==> rows[j]@ == row_of(raw[j]@),
        decreases raw.len() - i,
    {
        rows.push(row_to_sql_row(&raw[i]));
        i = i + 1;
    }
    assert(row_views(rows@) =~= rows_of(raw@));
    rows
}

} // verus!
