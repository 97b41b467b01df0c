//! The row schema binder: typed cells, column kinds, and the contract that
//! binds a record type to its ordered columns.
//!
//! A row travels as a sequence of cells in physical column order. Decoding
//! checks the number of cells and the kind of each before it reads any
//! value, so a row that does not fit the record is a typed error.

use vstd::prelude::*;

verus! {

/// One value of a row.
#[derive(Debug, Clone, PartialEq, Eq)]
pub enum Cell {
    UInt8(u8),
    UInt64(u64),
    Int32(i32),
    Text(String),
    /// A UUID as its 128-bit value.
    Uuid(u128),
    /// An instant in milliseconds since the Unix epoch.
    DateTime(i64),
    NullableText(Option<String>),
}

/// The kind of a cell, as a column declares it.
#[derive(Debug, Clone, Copy, PartialEq, Eq, Structural)]
pub enum CellKind {
    UInt8,
    UInt64,
    Int32,
    Text,
    Uuid,
    DateTime,
    NullableText,
}

/// The kind of a cell.
pub open spec fn kind_of(c: Cell) -> CellKind {
    match c {
        Cell::UInt8(_) => CellKind::UInt8,
        Cell::UInt64(_) => CellKind::UInt64,
        Cell::Int32(_) => CellKind::Int32,
        Cell::Text(_) => CellKind::Text,
        Cell::Uuid(_) => CellKind::Uuid,
        Cell::DateTime(_) => CellKind::DateTime,
        Cell::NullableText(_) => CellKind::NullableText,
    }
}

impl Cell {
    /// The kind of the cell.
    pub fn kind(&self) -> (r: CellKind)
        ensures
            r == kind_of(*self),
    {
        match self {
            Cell::UInt8(_) => CellKind::UInt8,
            Cell::UInt64(_) => CellKind::UInt64,
            Cell::Int32(_) => CellKind::Int32,
            Cell::Text(_) => CellKind::Text,
            Cell::Uuid(_) => CellKind::Uuid,
            Cell::DateTime(_) => CellKind::DateTime,
            Cell::NullableText(_) => CellKind::NullableText,
        }
    }
}

/// Why a row cannot be read as a record.
#[derive(Debug, Clone, Copy, PartialEq, Eq, Structural)]
pub enum DecodeError {
    /// The row has another number of cells than the record has columns.
    ColumnCount { expected: usize, found: usize },
    /// The cell of a column has another kind than the column declares.
    ColumnType { column: usize, expected: CellKind },
    /// The cell has the right kind but a value that the column does not
    /// admit (an enumeration code that names no variant).
    BadValue { column: usize },
}

/// The first column, from `i` on, whose cell does not have the declared kind.
pub open spec fn first_mismatch(row: Seq<Cell>, kinds: Seq<CellKind>, i: int) -> Option<int>
    decreases kinds.len() - i,
{
    if i < 0 || i >= kinds.len() {
        None
    } else if kind_of(row[i]) != kinds[i] {
        Some(i)
    } else {
        first_mismatch(row, kinds, i + 1)
    }
}

/// The shape error of a row against the declared kinds, if any: a wrong
/// number of cells first, else the first cell of a wrong kind.
pub open spec fn shape_error(row: Seq<Cell>, kinds: Seq<CellKind>) -> Option<DecodeError> {
    if row.len() != kinds.len() {
        Some(DecodeError::ColumnCount { expected: kinds.len() as usize, found: row.len() as usize })
    } else {
        match first_mismatch(row, kinds, 0) {
            Some(i) => Some(DecodeError::ColumnType { column: i as usize, expected: kinds[i] }),
            None => None,
        }
    }
}

/// Where no column from `i` on mismatches, every such column has its kind.
pub proof fn lemma_no_mismatch(row: Seq<Cell>, kinds: Seq<CellKind>, i: int)
    requires
        0 <= i,
        first_mismatch(row, kinds, i) is None,
    ensures
        forall|j: int| i <= j < kinds.len() ==> kind_of(#[trigger] row[j]) == kinds[j],
    decreases kinds.len() - i,
{
    if i < kinds.len() {
        lemma_no_mismatch(row, kinds, i + 1);
    }
}

/// Checks the number and the kinds of the cells of a row.
pub fn check_shape(row: &Vec<Cell>, kinds: &Vec<CellKind>) -> (r: Result<(), DecodeError>)
    ensures
        r is Ok <==> shape_error(row@, kinds@) is None,
        r matches Err(e) ==> shape_error(row@, kinds@) == Some(e),
        r is Ok ==> row@.len() == kinds@.len() && forall|j: int|
            0 <= j < kinds@.len() ==> kind_of(#[trigger] row@[j]) == kinds@[j],
{
    if row.len() != kinds.len() {
        return Err(DecodeError::ColumnCount { expected: kinds.len(), found: row.len() });
    }
    let mut i: usize = 0;
    while i < kinds.len()
        invariant
            row@.len() == kinds@.len(),
            i <= kinds@.len(),
            first_mismatch(row@, kinds@, 0) == first_mismatch(row@, kinds@, i as int),
        decreases kinds@.len() - i,
    {
        if row[i].kind() != kinds[i] {
            return Err(DecodeError::ColumnType { column: i, expected: kinds[i] });
        }
        i += 1;
    }
    proof {
        lemma_no_mismatch(row@, kinds@, 0);
    }
    Ok(())
}

/// What decoding a row as `R` yields: the shape error, else the first bad
/// value, else the record.
pub open spec fn decode_spec<R: Row>(row: Seq<Cell>) -> Result<R, DecodeError> {
    match shape_error(row, R::column_kinds()) {
        Some(e) => Err(e),
        None => match R::value_error(row) {
            Some(e) => Err(e),
            None => Ok(R::from_cells(row)),
        },
    }
}

/// A record type bound to an ordered list of columns.
pub trait Row: Sized {
    /// Column names, in physical order.
    spec fn column_names_spec() -> Seq<Seq<char>>;

    /// Column kinds, in physical order.
    spec fn column_kinds() -> Seq<CellKind>;

    /// The cells that encode a record.
    spec fn to_cells(self) -> Seq<Cell>;

    /// The record read from a row whose shape fits.
    spec fn from_cells(row: Seq<Cell>) -> Self;

    /// The first cell of a fitting row whose value the column does not admit.
    spec fn value_error(row: Seq<Cell>) -> Option<DecodeError>;

    /// The column names.
    fn column_names() -> (r: Vec<&'static str>)
        ensures
            r@.len() == Self::column_names_spec().len(),
            forall|i: int| 0 <= i < r@.len() ==> (#[trigger] r@[i])@ == Self::column_names_spec()[i],
    ;

    /// The column kinds.
    fn column_kind_list() -> (r: Vec<CellKind>)
        ensures
            r@ == Self::column_kinds(),
    ;

    /// Encodes the record as cells in column order.
    fn encode(&self) -> (r: Vec<Cell>)
        ensures
            r@ == self.to_cells(),
    ;

    /// Decodes a row, checking its shape and values first.
    fn decode(row: &Vec<Cell>) -> (r: Result<Self, DecodeError>)
        ensures
            r == (match shape_error(row@, Self::column_kinds()) {
                Some(e) => Err(e),
                None => match Self::value_error(row@) {
                    Some(e) => Err(e),
                    None => Ok(Self::from_cells(row@)),
                },
            }),
    ;

    /// Encoding yields a row of the declared shape and admitted values that
    /// reads back as the same record.
    proof fn lemma_cells_fit(x: Self)
        ensures
            Self::column_names_spec().len() == Self::column_kinds().len(),
            shape_error(x.to_cells(), Self::column_kinds()) is None,
            Self::value_error(x.to_cells()) is None,
            Self::from_cells(x.to_cells()) == x,
    ;
}

/// Decoding the encoding of a record gives the record back.
pub proof fn lemma_decode_encode<R: Row>(x: R)
    ensures
        decode_spec::<R>(x.to_cells()) == Ok::<R, DecodeError>(x),
{
    R::lemma_cells_fit(x);
}

/// Decodes each row in turn, in the order given; the first row that does not
/// decode ends the work with its error.
pub fn decode_rows<R: Row>(rows: &Vec<Vec<Cell>>) -> (r: Result<Vec<R>, DecodeError>)
    ensures
        r matches Ok(v) ==> v@.len() == rows@.len() && forall|i: int|
            0 <= i < rows@.len() ==> decode_spec::<R>(#[trigger] rows@[i]@) == Ok::<R, DecodeError>(v@[i]),
        r matches Err(e) ==> exists|i: int|
            0 <= i < rows@.len() && decode_spec::<R>(#[trigger] rows@[i]@) == Err::<R, DecodeError>(e)
                && forall|j: int| 0 <= j < i ==> decode_spec::<R>(#[trigger] rows@[j]@) is Ok,
{
    let mut out: Vec<R> = Vec::new();
    let mut i: usize = 0;
    while i < rows.len()
        invariant
            i <= rows@.len(),
            out@.len() == i,
            forall|k: int| 0 <= k < i ==> decode_spec::<R>(#[trigger] rows@[k]@) == Ok::<R, DecodeError>(out@[k]),
        decreases rows@.len() - i,
    {
        match R::decode(&rows[i]) {
            Ok(x) => {
                out.push(x);
            },
            Err(e) => {
                assert(decode_spec::<R>(rows@[i as int]@) == Err::<R, DecodeError>(e));
                return Err(e);
            },
        }
        i += 1;
    }
    Ok(out)
}

/// The text of a cell known to hold text.
pub fn text_at(row: &Vec<Cell>, i: usize) -> (r: String)
    requires
        i < row@.len(),
        row@[i as int] is Text,
    ensures
        r == row@[i as int]->Text_0,
{
    match &row[i] {
        Cell::Text(s) => s.clone(),
        _ => String::new(),
    }
}

/// The optional text of a cell known to hold a nullable text.
pub fn nullable_text_at(row: &Vec<Cell>, i: usize) -> (r: Option<String>)
    requires
        i < row@.len(),
        row@[i as int] is NullableText,
    ensures
        r == row@[i as int]->NullableText_0,
{
    match &row[i] {
        Cell::NullableText(Some(s)) => Some(s.clone()),
        _ => None,
    }
}

/// The value of a cell known to hold a `UInt64`.
pub fn u64_at(row: &Vec<Cell>, i: usize) -> (r: u64)
    requires
        i < row@.len(),
        row@[i as int] is UInt64,
    ensures
        r == row@[i as int]->UInt64_0,
{
    match &row[i] {
        Cell::UInt64(v) => *v,
        _ => 0,
    }
}

/// The value of a cell known to hold a `UInt8`.
pub fn u8_at(row: &Vec<Cell>, i: usize) -> (r: u8)
    requires
        i < row@.len(),
        row@[i as int] is UInt8,
    ensures
        r == row@[i as int]->UInt8_0,
{
    match &row[i] {
        Cell::UInt8(v) => *v,
        _ => 0,
    }
}

/// The value of a cell known to hold an `Int32`.
pub fn i32_at(row: &Vec<Cell>, i: usize) -> (r: i32)
    requires
        i < row@.len(),
        row@[i as int] is Int32,
    ensures
        r == row@[i as int]->Int32_0,
{
    match &row[i] {
        Cell::Int32(v) => *v,
        _ => 0,
    }
}

/// The value of a cell known to hold a UUID.
pub fn uuid_at(row: &Vec<Cell>, i: usize) -> (r: u128)
    requires
        i < row@.len(),
        row@[i as int] is Uuid,
    ensures
        r == row@[i as int]->Uuid_0,
{
    match &row[i] {
        Cell::Uuid(v) => *v,
        _ => 0,
    }
}

/// The value of a cell known to hold an instant.
pub fn datetime_at(row: &Vec<Cell>, i: usize) -> (r: i64)
    requires
        i < row@.len(),
        row@[i as int] is DateTime,
    ensures
        r == row@[i as int]->DateTime_0,
{
    match &row[i] {
        Cell::DateTime(v) => *v,
        _ => 0,
    }
}

/// Copies an optional text.
pub fn copy_nullable(t: &Option<String>) -> (r: Option<String>)
    ensures
        r == *t,
{
    match t {
        Some(s) => Some(s.clone()),
        None => None,
    }
}

} // verus!
