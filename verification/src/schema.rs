//! Column types, storage classes and the values that travel from a source
//! into a table.

use vstd::prelude::*;
use rusqlite::types::Value;
use crate::number::{decimal, decimal_chars, parse_integer, parsed_integer};
use crate::text::{chars_of, string_of};

verus! {

/// The type that was inferred for a column of a source.
#[derive(Clone, Copy, Debug, PartialEq, Eq, Structural)]
pub enum InferredType {
    Integer,
    Real,
    Text,
    Boolean,
    Blob,
    /// A type that the engine has no storage class for.
    Other,
}

/// The type of a column as the reader of a source names it.
#[derive(Clone, Copy, Debug, PartialEq, Eq, Structural)]
pub enum ColumnKind {
    Int8,
    Int16,
    Int32,
    Int64,
    UInt8,
    UInt16,
    UInt32,
    UInt64,
    Float32,
    Float64,
    Decimal,
    Date,
    Datetime,
    Time,
    Boolean,
    String,
    List,
    Binary,
    /// Any other type of the reader.
    Other,
}

/// The inferred type that a type of the reader counts as: every integer type
/// is an integer; the floating-point types and the decimal type are real;
/// truth values, strings and binary data are what they are; dates, times,
/// lists and every other type are types that the engine has no class for.
pub open spec fn sorted_as(kind: ColumnKind) -> InferredType {
    match kind {
        ColumnKind::Int8 | ColumnKind::Int16 | ColumnKind::Int32 | ColumnKind::Int64 => InferredType::Integer,
        ColumnKind::UInt8 | ColumnKind::UInt16 | ColumnKind::UInt32 | ColumnKind::UInt64 => InferredType::Integer,
        ColumnKind::Float32 | ColumnKind::Float64 | ColumnKind::Decimal => InferredType::Real,
        ColumnKind::Boolean => InferredType::Boolean,
        ColumnKind::String => InferredType::Text,
        ColumnKind::Binary => InferredType::Blob,
        ColumnKind::Date | ColumnKind::Datetime | ColumnKind::Time => InferredType::Other,
        ColumnKind::List | ColumnKind::Other => InferredType::Other,
    }
}

/// Sorts a type of the reader into the inferred types.
pub fn inferred_type(kind: ColumnKind) -> (inferred: InferredType)
    ensures
        inferred == sorted_as(kind),
{
    match kind {
        ColumnKind::Int8 | ColumnKind::Int16 | ColumnKind::Int32 | ColumnKind::Int64 => InferredType::Integer,
        ColumnKind::UInt8 | ColumnKind::UInt16 | ColumnKind::UInt32 | ColumnKind::UInt64 => InferredType::Integer,
        ColumnKind::Float32 | ColumnKind::Float64 | ColumnKind::Decimal => InferredType::Real,
        ColumnKind::Boolean => InferredType::Boolean,
        ColumnKind::String => InferredType::Text,
        ColumnKind::Binary => InferredType::Blob,
        ColumnKind::Date | ColumnKind::Datetime | ColumnKind::Time => InferredType::Other,
        ColumnKind::List | ColumnKind::Other => InferredType::Other,
    }
}

/// The storage classes of the relational engine.
#[derive(Clone, Copy, Debug, PartialEq, Eq, Structural)]
pub enum StorageClass {
    Integer,
    Real,
    Text,
    Blob,
}

/// The storage class in which a column of the given type is kept: a truth
/// value is kept as the integer 0 or 1, and a type that has no class of its
/// own is kept as text.
pub open spec fn storage_of(inferred: InferredType) -> StorageClass {
    match inferred {
        InferredType::Integer => StorageClass::Integer,
        InferredType::Real => StorageClass::Real,
        InferredType::Text => StorageClass::Text,
        InferredType::Boolean => StorageClass::Integer,
        InferredType::Blob => StorageClass::Blob,
        InferredType::Other => StorageClass::Text,
    }
}

/// The engine's name for a storage class.
pub open spec fn class_name(class: StorageClass) -> Seq<char> {
    match class {
        StorageClass::Integer => "INTEGER"@,
        StorageClass::Real => "REAL"@,
        StorageClass::Text => "TEXT"@,
        StorageClass::Blob => "BLOB"@,
    }
}

/// Maps an inferred type to its storage class.
pub fn storage_class(inferred: InferredType) -> (class: StorageClass)
    ensures
        class == storage_of(inferred),
{
    match inferred {
        InferredType::Integer => StorageClass::Integer,
        InferredType::Real => StorageClass::Real,
        InferredType::Text => StorageClass::Text,
        InferredType::Boolean => StorageClass::Integer,
        InferredType::Blob => StorageClass::Blob,
        InferredType::Other => StorageClass::Text,
    }
}

impl StorageClass {
    /// The engine's name for the class.
    pub fn name(self) -> (name: &'static str)
        ensures
            name@ == class_name(self),
    {
        match self {
            StorageClass::Integer => "INTEGER",
            StorageClass::Real => "REAL",
            StorageClass::Text => "TEXT",
            StorageClass::Blob => "BLOB",
        }
    }
}

/// A column of an inferred schema.
#[derive(Clone, Debug, PartialEq, Eq)]
pub struct Column {
    pub name: String,
    pub inferred: InferredType,
}

/// The mathematical value of a [`Column`].
pub struct ColumnView {
    pub name: Seq<char>,
    pub inferred: InferredType,
}

impl View for Column {
    type V = ColumnView;

    open spec fn view(&self) -> ColumnView {
        ColumnView { name: self.name@, inferred: self.inferred }
    }
}

impl DeepView for Column {
    type V = ColumnView;

    open spec fn deep_view(&self) -> ColumnView {
        self@
    }
}

/// A cell as it was read from a source: an integer in the width that the
/// reader gave it, a real number of double precision as its decimal text, and
/// a value of any other kind as the text that shows it.
#[derive(Clone, Debug, PartialEq, Eq)]
pub enum SourceValue {
    Null,
    Boolean(bool),
    Int8(i8),
    Int16(i16),
    Int32(i32),
    Int64(i64),
    UInt8(u8),
    UInt16(u16),
    UInt32(u32),
    UInt64(u64),
    Real(String),
    Text(String),
    Other(String),
}

/// The mathematical value of a [`SourceValue`].
pub enum SourceValueView {
    Null,
    Boolean(bool),
    Int8(i8),
    Int16(i16),
    Int32(i32),
    Int64(i64),
    UInt8(u8),
    UInt16(u16),
    UInt32(u32),
    UInt64(u64),
    Real(Seq<char>),
    Text(Seq<char>),
    Other(Seq<char>),
}

impl View for SourceValue {
    type V = SourceValueView;

    open spec fn view(&self) -> SourceValueView {
        match *self {
            SourceValue::Null => SourceValueView::Null,
            SourceValue::Boolean(b) => SourceValueView::Boolean(b),
            SourceValue::Int8(n) => SourceValueView::Int8(n),
            SourceValue::Int16(n) => SourceValueView::Int16(n),
            SourceValue::Int32(n) => SourceValueView::Int32(n),
            SourceValue::Int64(n) => SourceValueView::Int64(n),
            SourceValue::UInt8(n) => SourceValueView::UInt8(n),
            SourceValue::UInt16(n) => SourceValueView::UInt16(n),
            SourceValue::UInt32(n) => SourceValueView::UInt32(n),
            SourceValue::UInt64(n) => SourceValueView::UInt64(n),
            SourceValue::Real(t) => SourceValueView::Real(t@),
            SourceValue::Text(t) => SourceValueView::Text(t@),
            SourceValue::Other(t) => SourceValueView::Other(t@),
        }
    }
}

impl DeepView for SourceValue {
    type V = SourceValueView;

    open spec fn deep_view(&self) -> SourceValueView {
        self@
    }
}

/// A value bound to a parameter of a statement. A real number is held as its
/// decimal text.
#[derive(Clone, Debug, PartialEq, Eq)]
pub enum SqlValue {
    Null,
    Integer(i64),
    Real(String),
    Text(String),
}

/// The mathematical value of a [`SqlValue`].
pub enum SqlValueView {
    Null,
    Integer(int),
    Real(Seq<char>),
    Text(Seq<char>),
}

impl View for SqlValue {
    type V = SqlValueView;

    open spec fn view(&self) -> SqlValueView {
        match *self {
            SqlValue::Null => SqlValueView::Null,
            SqlValue::Integer(n) => SqlValueView::Integer(n as int),
            SqlValue::Real(t) => SqlValueView::Real(t@),
            SqlValue::Text(t) => SqlValueView::Text(t@),
        }
    }
}

impl DeepView for SqlValue {
    type V = SqlValueView;

    open spec fn deep_view(&self) -> SqlValueView {
        self@
    }
}

/// The value that a cell of a source stands for by its own kind: an integer
/// of any width is a 64-bit integer if that can hold it, and null if not; a
/// real number and a text are what they are; a truth value is 1 or 0; and a
/// value of any other kind is its text.
pub open spec fn stored(cell: SourceValueView) -> SqlValueView {
    match cell {
        SourceValueView::Null => SqlValueView::Null,
        SourceValueView::Boolean(b) => SqlValueView::Integer(
            if b {
                1
            } else {
                0
            },
        ),
        SourceValueView::Int8(n) => SqlValueView::Integer(n as int),
        SourceValueView::Int16(n) => SqlValueView::Integer(n as int),
        SourceValueView::Int32(n) => SqlValueView::Integer(n as int),
        SourceValueView::Int64(n) => SqlValueView::Integer(n as int),
        SourceValueView::UInt8(n) => SqlValueView::Integer(n as int),
        SourceValueView::UInt16(n) => SqlValueView::Integer(n as int),
        SourceValueView::UInt32(n) => SqlValueView::Integer(n as int),
        SourceValueView::UInt64(n) => if n <= i64::MAX {
            SqlValueView::Integer(n as int)
        } else {
            SqlValueView::Null
        },
        SourceValueView::Real(t) => SqlValueView::Real(t),
        SourceValueView::Text(t) => SqlValueView::Text(t),
        SourceValueView::Other(t) => SqlValueView::Text(t),
    }
}

/// Converts a cell of a source to the value that it stands for by its own
/// kind.
pub fn to_sql_value(cell: &SourceValue) -> (value: SqlValue)
    ensures
        value@ == stored(cell@),
{
    match cell {
        SourceValue::Null => SqlValue::Null,
        SourceValue::Boolean(b) => SqlValue::Integer(
            if *b {
                1
            } else {
                0
            },
        ),
        SourceValue::Int8(n) => SqlValue::Integer(*n as i64),
        SourceValue::Int16(n) => SqlValue::Integer(*n as i64),
        SourceValue::Int32(n) => SqlValue::Integer(*n as i64),
        SourceValue::Int64(n) => SqlValue::Integer(*n),
        SourceValue::UInt8(n) => SqlValue::Integer(*n as i64),
        SourceValue::UInt16(n) => SqlValue::Integer(*n as i64),
        SourceValue::UInt32(n) => SqlValue::Integer(*n as i64),
        SourceValue::UInt64(n) => {
            if *n <= 0x7FFF_FFFF_FFFF_FFFFu64 {
                SqlValue::Integer(*n as i64)
            } else {
                SqlValue::Null
            }
        },
        SourceValue::Real(t) => SqlValue::Real(t.clone()),
        SourceValue::Text(t) => SqlValue::Text(t.clone()),
        SourceValue::Other(t) => SqlValue::Text(t.clone()),
    }
}

/// Whether a text reads as a real number of double precision.
pub uninterp spec fn is_real_text(text: Seq<char>) -> bool;

/// Whether a text reads as a real number of double precision.
///
/// Trusted: wraps std's `str::parse` for a number of double precision and
/// tells whether it succeeds. The answer depends on the text alone.
#[verifier::external_body]
pub(crate) fn reads_as_real(text: &str) -> (yes: bool)
    ensures
        yes == is_real_text(text@),
{
    text.parse().map(Value::Real).is_ok()
}

/// The real number that a text stands for: the text itself if it reads as a
/// real number, and null if it does not.
pub open spec fn as_real(text: Seq<char>) -> SqlValueView {
    if is_real_text(text) {
        SqlValueView::Real(text)
    } else {
        SqlValueView::Null
    }
}

/// The integer that a text stands for: the integer that it spells in decimal
/// notation, and null if it spells none.
pub open spec fn as_integer(text: Seq<char>) -> SqlValueView {
    match parsed_integer(text) {
        Some(n) => SqlValueView::Integer(n),
        None => SqlValueView::Null,
    }
}

/// A value coerced to the storage class of its column; a coercion that fails
/// gives null.
///
/// An integer column takes an integer, and a text that spells one. A real
/// column takes a real number, an integer, and a text that reads as a real
/// number. A text column takes every value as its text. A column of binary
/// data takes every value as it is.
pub open spec fn coerced(value: SqlValueView, class: StorageClass) -> SqlValueView {
    match value {
        SqlValueView::Null => SqlValueView::Null,
        SqlValueView::Integer(n) => match class {
            StorageClass::Integer => value,
            StorageClass::Real => as_real(decimal(n)),
            StorageClass::Text => SqlValueView::Text(decimal(n)),
            StorageClass::Blob => value,
        },
        SqlValueView::Real(t) => match class {
            StorageClass::Integer => SqlValueView::Null,
            StorageClass::Real => as_real(t),
            StorageClass::Text => SqlValueView::Text(t),
            StorageClass::Blob => as_real(t),
        },
        SqlValueView::Text(t) => match class {
            StorageClass::Integer => as_integer(t),
            StorageClass::Real => as_real(t),
            StorageClass::Text => value,
            StorageClass::Blob => value,
        },
    }
}

/// Whether a value can be bound to a parameter: a real number must read as
/// one.
pub open spec fn is_bindable(value: SqlValueView) -> bool {
    value matches SqlValueView::Real(t) ==> is_real_text(t)
}

/// The value that is bound for a cell of a source in a column of the storage
/// class `class`: what the cell stands for by its own kind, coerced to the
/// class.
pub open spec fn bound(cell: SourceValueView, class: StorageClass) -> SqlValueView {
    coerced(stored(cell), class)
}

fn real_of(text: String) -> (value: SqlValue)
    ensures
        value@ == as_real(text@),
{
    if reads_as_real(text.as_str()) {
        SqlValue::Real(text)
    } else {
        SqlValue::Null
    }
}

fn decimal_of(n: i64) -> (text: String)
    ensures
        text@ == decimal(n as int),
{
    let digits = decimal_chars(n);
    string_of(&digits)
}

/// Coerces a value to the storage class of its column; a coercion that fails
/// gives null.
pub fn coerce(value: SqlValue, class: StorageClass) -> (out: SqlValue)
    ensures
        out@ == coerced(value@, class),
        is_bindable(out@),
{
    match value {
        SqlValue::Null => SqlValue::Null,
        SqlValue::Integer(n) => match class {
            StorageClass::Integer => SqlValue::Integer(n),
            StorageClass::Real => real_of(decimal_of(n)),
            StorageClass::Text => SqlValue::Text(decimal_of(n)),
            StorageClass::Blob => SqlValue::Integer(n),
        },
        SqlValue::Real(t) => match class {
            StorageClass::Integer => SqlValue::Null,
            StorageClass::Real => real_of(t),
            StorageClass::Text => SqlValue::Text(t),
            StorageClass::Blob => real_of(t),
        },
        SqlValue::Text(t) => match class {
            StorageClass::Integer => {
                let chars = chars_of(t.as_str());
                match parse_integer(&chars) {
                    Some(n) => SqlValue::Integer(n),
                    None => SqlValue::Null,
                }
            },
            StorageClass::Real => real_of(t),
            StorageClass::Text => SqlValue::Text(t),
            StorageClass::Blob => SqlValue::Text(t),
        },
    }
}

/// Converts a cell of a source to the value that is bound for it in a column
/// of the storage class `class`.
pub fn bind(cell: &SourceValue, class: StorageClass) -> (value: SqlValue)
    ensures
        value@ == bound(cell@, class),
        is_bindable(value@),
{
    coerce(to_sql_value(cell), class)
}

} // verus!
