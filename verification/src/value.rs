//! Decoded cell values, and the decoding of what the driver hands over.
//!
//! A cell leaves the driver as a [`RawValue`]: the declared type name of its
//! column and what the driver read. [`MysqlValueDecoded::try_from`] turns it
//! into the typed value that transformers and inserts work on.

use vstd::prelude::*;
use vstd::std_specs::convert::FromSpecImpl;
use vstd::string::{StringExecFns, StringSliceAdditionalSpecFns};
use vstd::utf8::{decode_utf8, encode_utf8_decode_utf8};

verus! {

/// The driver's error, carried as it is.
#[verifier::external_type_specification]
#[verifier::external_body]
pub struct ExDriverError(sqlx::Error);

/// The driver's fixed-point number, carried as it is.
#[verifier::external_type_specification]
#[verifier::external_body]
pub struct ExDecimal(sqlx::types::Decimal);

/// A date and time of day without a zone, carried as it is.
#[verifier::external_type_specification]
#[verifier::external_body]
pub struct ExNaiveDateTime(chrono::NaiveDateTime);

/// One cell of a row, independent of how the driver delivered it.
///
/// `Double` holds the IEEE 754 bit pattern of the number. `DateTime` holds
/// the instant as a calendar date and time of day in UTC.
#[derive(Debug, PartialEq)]
pub enum MysqlValueDecoded {
    Null,
    Bool(bool),
    Int(i64),
    UInt(u64),
    Double(u64),
    Decimal(sqlx::types::Decimal),
    String(String),
    DateTime(chrono::NaiveDateTime),
    Bytes(Vec<u8>),
}

/// The mathematical value of a [`MysqlValueDecoded`].
pub enum Decoded {
    Null,
    Bool(bool),
    Int(int),
    UInt(nat),
    Double(u64),
    Decimal(sqlx::types::Decimal),
    String(Seq<char>),
    DateTime(chrono::NaiveDateTime),
    Bytes(Seq<u8>),
}

impl View for MysqlValueDecoded {
    type V = Decoded;

    open spec fn view(&self) -> Decoded {
        match self {
            MysqlValueDecoded::Null => Decoded::Null,
            MysqlValueDecoded::Bool(b) => Decoded::Bool(*b),
            MysqlValueDecoded::Int(i) => Decoded::Int(*i as int),
            MysqlValueDecoded::UInt(u) => Decoded::UInt(*u as nat),
            MysqlValueDecoded::Double(bits) => Decoded::Double(*bits),
            MysqlValueDecoded::Decimal(d) => Decoded::Decimal(*d),
            MysqlValueDecoded::String(s) => Decoded::String(s@),
            MysqlValueDecoded::DateTime(t) => Decoded::DateTime(*t),
            MysqlValueDecoded::Bytes(b) => Decoded::Bytes(b@),
        }
    }
}

/// The variants of a decoded value, without their payload.
#[derive(Debug, Clone, Copy, PartialEq, Eq, Structural)]
pub enum ValueKind {
    Null,
    Bool,
    Int,
    UInt,
    Double,
    Decimal,
    String,
    DateTime,
    Bytes,
}

impl Decoded {
    /// The variant of the value.
    pub open spec fn kind(self) -> ValueKind {
        match self {
            Decoded::Null => ValueKind::Null,
            Decoded::Bool(_) => ValueKind::Bool,
            Decoded::Int(_) => ValueKind::Int,
            Decoded::UInt(_) => ValueKind::UInt,
            Decoded::Double(_) => ValueKind::Double,
            Decoded::Decimal(_) => ValueKind::Decimal,
            Decoded::String(_) => ValueKind::String,
            Decoded::DateTime(_) => ValueKind::DateTime,
            Decoded::Bytes(_) => ValueKind::Bytes,
        }
    }
}

/// The Rust type as which the driver is asked to read a cell.
#[derive(Debug, Clone, Copy, PartialEq, Eq, Structural)]
pub enum WireType {
    Bool,
    I8,
    I16,
    I32,
    I64,
    U8,
    U16,
    U32,
    U64,
    Double,
    Decimal,
    Text,
    DateTime,
    Bytes,
}

impl WireType {
    /// The variant that a value read as this type is decoded to.
    pub open spec fn kind(self) -> ValueKind {
        match self {
            WireType::Bool => ValueKind::Bool,
            WireType::I8 | WireType::I16 | WireType::I32 | WireType::I64 => ValueKind::Int,
            WireType::U8 | WireType::U16 | WireType::U32 | WireType::U64 => ValueKind::UInt,
            WireType::Double => ValueKind::Double,
            WireType::Decimal => ValueKind::Decimal,
            WireType::Text => ValueKind::String,
            WireType::DateTime => ValueKind::DateTime,
            WireType::Bytes => ValueKind::Bytes,
        }
    }
}

/// A cell as the driver read it, at the width of its column.
#[derive(Debug, PartialEq)]
pub enum WireValue {
    Bool(bool),
    I8(i8),
    I16(i16),
    I32(i32),
    I64(i64),
    U8(u8),
    U16(u16),
    U32(u32),
    U64(u64),
    Double(u64),
    Decimal(sqlx::types::Decimal),
    Text(String),
    DateTime(chrono::NaiveDateTime),
    Bytes(Vec<u8>),
}

impl WireValue {
    /// The Rust type that this value was read as.
    pub open spec fn spec_wire_type(&self) -> WireType {
        match self {
            WireValue::Bool(_) => WireType::Bool,
            WireValue::I8(_) => WireType::I8,
            WireValue::I16(_) => WireType::I16,
            WireValue::I32(_) => WireType::I32,
            WireValue::I64(_) => WireType::I64,
            WireValue::U8(_) => WireType::U8,
            WireValue::U16(_) => WireType::U16,
            WireValue::U32(_) => WireType::U32,
            WireValue::U64(_) => WireType::U64,
            WireValue::Double(_) => WireType::Double,
            WireValue::Decimal(_) => WireType::Decimal,
            WireValue::Text(_) => WireType::Text,
            WireValue::DateTime(_) => WireType::DateTime,
            WireValue::Bytes(_) => WireType::Bytes,
        }
    }

    /// The value after widening: every signed width becomes `Int`, every
    /// unsigned width `UInt`, with the number unchanged.
    pub open spec fn widened(&self) -> Decoded {
        match self {
            WireValue::Bool(b) => Decoded::Bool(*b),
            WireValue::I8(v) => Decoded::Int(*v as int),
            WireValue::I16(v) => Decoded::Int(*v as int),
            WireValue::I32(v) => Decoded::Int(*v as int),
            WireValue::I64(v) => Decoded::Int(*v as int),
            WireValue::U8(v) => Decoded::UInt(*v as nat),
            WireValue::U16(v) => Decoded::UInt(*v as nat),
            WireValue::U32(v) => Decoded::UInt(*v as nat),
            WireValue::U64(v) => Decoded::UInt(*v as nat),
            WireValue::Double(bits) => Decoded::Double(*bits),
            WireValue::Decimal(d) => Decoded::Decimal(*d),
            WireValue::Text(s) => Decoded::String(s@),
            WireValue::DateTime(t) => Decoded::DateTime(*t),
            WireValue::Bytes(b) => Decoded::Bytes(b@),
        }
    }

    /// The Rust type that this value was read as.
    #[verifier::when_used_as_spec(spec_wire_type)]
    pub fn wire_type(&self) -> (t: WireType)
        ensures
            t == self.spec_wire_type(),
    {
        match self {
            WireValue::Bool(_) => WireType::Bool,
            WireValue::I8(_) => WireType::I8,
            WireValue::I16(_) => WireType::I16,
            WireValue::I32(_) => WireType::I32,
            WireValue::I64(_) => WireType::I64,
            WireValue::U8(_) => WireType::U8,
            WireValue::U16(_) => WireType::U16,
            WireValue::U32(_) => WireType::U32,
            WireValue::U64(_) => WireType::U64,
            WireValue::Double(_) => WireType::Double,
            WireValue::Decimal(_) => WireType::Decimal,
            WireValue::Text(_) => WireType::Text,
            WireValue::DateTime(_) => WireType::DateTime,
            WireValue::Bytes(_) => WireType::Bytes,
        }
    }
}

/// The type names that the engine reports and that have a decoding, each
/// with the Rust type its cells are read as. Names are compared exactly,
/// letter case included.
pub open spec fn wire_type_table(name: Seq<char>) -> Option<WireType> {
    if name == "BOOLEAN"@ {
        Some(WireType::Bool)
    } else if name == "TINYINT"@ {
        Some(WireType::I8)
    } else if name == "SMALLINT"@ {
        Some(WireType::I16)
    } else if name == "INT"@ {
        Some(WireType::I32)
    } else if name == "BIGINT"@ {
        Some(WireType::I64)
    } else if name == "TINYINT UNSIGNED"@ {
        Some(WireType::U8)
    } else if name == "SMALLINT UNSIGNED"@ {
        Some(WireType::U16)
    } else if name == "MEDIUMINT UNSIGNED"@ || name == "INT UNSIGNED"@ {
        Some(WireType::U32)
    } else if name == "BIGINT UNSIGNED"@ {
        Some(WireType::U64)
    } else if name == "FLOAT"@ || name == "DOUBLE"@ {
        Some(WireType::Double)
    } else if name == "DECIMAL"@ {
        Some(WireType::Decimal)
    } else if name == "VARCHAR"@ || name == "TEXT"@ || name == "CHAR"@ || name == "ENUM"@ {
        Some(WireType::Text)
    } else if name == "TIMESTAMP"@ || name == "DATETIME"@ {
        Some(WireType::DateTime)
    } else if name == "BLOB"@ {
        Some(WireType::Bytes)
    } else {
        None
    }
}

/// Whether two string slices hold the same characters: they do exactly
/// where their encodings are the same bytes.
pub(crate) fn str_eq(a: &str, b: &str) -> (same: bool)
    ensures
        same == (a@ == b@),
{
    let left = a.as_bytes();
    let right = b.as_bytes();
    proof {
        encode_utf8_decode_utf8(a@);
        encode_utf8_decode_utf8(b@);
    }
    if left.len() != right.len() {
        return false;
    }
    let mut i: usize = 0;
    while i < left.len()
        invariant
            i <= left.len(),
            left.len() == right.len(),
            left@ == a.spec_bytes(),
            right@ == b.spec_bytes(),
            decode_utf8(a.spec_bytes()) == a@,
            decode_utf8(b.spec_bytes()) == b@,
            forall|j: int| 0 <= j < i ==> left@[j] == right@[j],
        decreases left.len() - i,
    {
        if left[i] != right[i] {
            return false;
        }
        i += 1;
    }
    assert(left@ =~= right@);
    true
}

/// The Rust type to read a cell of the given declared type as, `None` for a
/// type name without a decoding.
pub fn wire_type_of(declared_type: &str) -> (t: Option<WireType>)
    ensures
        t == wire_type_table(declared_type@),
{
    if str_eq(declared_type, "BOOLEAN") {
        Some(WireType::Bool)
    } else if str_eq(declared_type, "TINYINT") {
        Some(WireType::I8)
    } else if str_eq(declared_type, "SMALLINT") {
        Some(WireType::I16)
    } else if str_eq(declared_type, "INT") {
        Some(WireType::I32)
    } else if str_eq(declared_type, "BIGINT") {
        Some(WireType::I64)
    } else if str_eq(declared_type, "TINYINT UNSIGNED") {
        Some(WireType::U8)
    } else if str_eq(declared_type, "SMALLINT UNSIGNED") {
        Some(WireType::U16)
    } else if str_eq(declared_type, "MEDIUMINT UNSIGNED") || str_eq(declared_type, "INT UNSIGNED") {
        Some(WireType::U32)
    } else if str_eq(declared_type, "BIGINT UNSIGNED") {
        Some(WireType::U64)
    } else if str_eq(declared_type, "FLOAT") || str_eq(declared_type, "DOUBLE") {
        Some(WireType::Double)
    } else if str_eq(declared_type, "DECIMAL") {
        Some(WireType::Decimal)
    } else if str_eq(declared_type, "VARCHAR") || str_eq(declared_type, "TEXT") || str_eq(
        declared_type,
        "CHAR",
    ) || str_eq(declared_type, "ENUM") {
        Some(WireType::Text)
    } else if str_eq(declared_type, "TIMESTAMP") || str_eq(declared_type, "DATETIME") {
        Some(WireType::DateTime)
    } else if str_eq(declared_type, "BLOB") {
        Some(WireType::Bytes)
    } else {
        None
    }
}

/// What the driver made of a cell.
#[derive(Debug)]
pub enum RawContent {
    /// SQL NULL.
    Null,
    /// The cell, read as some Rust type.
    Read(WireValue),
    /// The driver could not read the cell as the type asked for.
    Failed(sqlx::Error),
    /// The cell holds a value that the driver was not asked to read.
    Unread,
}

/// A cell as it leaves the driver: the declared type name of its column,
/// and what the driver read.
#[derive(Debug)]
pub struct RawValue {
    pub declared_type: String,
    pub content: RawContent,
}

/// Why a cell has no decoded value.
#[derive(Debug)]
pub enum ValueError {
    /// The declared type name has no decoding; holds the name.
    InvalidType(String),
    /// The cell cannot be read as the type that its name stands for.
    DecodeError(sqlx::Error),
}

impl From<sqlx::Error> for ValueError {
    fn from(err: sqlx::Error) -> (e: ValueError) {
        ValueError::DecodeError(err)
    }
}

impl FromSpecImpl<sqlx::Error> for ValueError {
    open spec fn obeys_from_spec() -> bool {
        true
    }

    open spec fn from_spec(err: sqlx::Error) -> ValueError {
        ValueError::DecodeError(err)
    }
}

/// The driver's own error for data that it did not expect
/// (`sqlx::Error::Protocol`), around the given message.
#[verifier::external_body]
pub(crate) fn protocol_error(message: &str) -> sqlx::Error {
    sqlx::Error::Protocol(message.to_string())
}

/// The text of a driver error, as its `Display` writes it.
#[verifier::external_body]
pub(crate) fn driver_error_text(err: &sqlx::Error) -> String {
    err.to_string()
}

impl ValueError {
    /// The error as one line of text: `Invalid type: ` before the type
    /// name, `Decode error: ` before the driver's own words.
    pub fn message(&self) -> (text: String)
        ensures
            match self {
                ValueError::InvalidType(name) => text@ == "Invalid type: "@ + name@,
                ValueError::DecodeError(_) => "Decode error: "@.is_prefix_of(text@),
            },
    {
        match self {
            ValueError::InvalidType(name) => {
                let mut text = String::from_str("Invalid type: ");
                text.append(name.as_str());
                text
            },
            ValueError::DecodeError(err) => {
                let mut text = String::from_str("Decode error: ");
                let detail = driver_error_text(err);
                text.append(detail.as_str());
                text
            },
        }
    }
}

/// How the decoding of a raw cell ends, as a mathematical value.
pub enum Decoding {
    Value(Decoded),
    /// The type name has no decoding.
    InvalidType(Seq<char>),
    /// The driver reported an error.
    DriverError(sqlx::Error),
    /// What the driver read is not of the type that the name stands for.
    Mismatch,
}

/// The decoding of a cell: NULL is `Null` whatever the declared type; then
/// the type name must have a decoding; then what the driver read, of the
/// type that the table gives for the name, is widened.
pub open spec fn decoding(declared_type: Seq<char>, content: RawContent) -> Decoding {
    match content {
        RawContent::Null => Decoding::Value(Decoded::Null),
        _ => match wire_type_table(declared_type) {
            None => Decoding::InvalidType(declared_type),
            Some(expected) => match content {
                RawContent::Read(value) => if value.spec_wire_type() == expected {
                    Decoding::Value(value.widened())
                } else {
                    Decoding::Mismatch
                },
                RawContent::Failed(err) => Decoding::DriverError(err),
                _ => Decoding::Mismatch,
            },
        },
    }
}

/// The variant that cells of each supported type name are decoded to.
pub open spec fn kind_of_type(name: Seq<char>) -> Option<ValueKind> {
    if name == "BOOLEAN"@ {
        Some(ValueKind::Bool)
    } else if name == "TINYINT"@ || name == "SMALLINT"@ || name == "INT"@ || name == "BIGINT"@ {
        Some(ValueKind::Int)
    } else if name == "TINYINT UNSIGNED"@ || name == "SMALLINT UNSIGNED"@ || name
        == "MEDIUMINT UNSIGNED"@ || name == "INT UNSIGNED"@ || name == "BIGINT UNSIGNED"@ {
        Some(ValueKind::UInt)
    } else if name == "FLOAT"@ || name == "DOUBLE"@ {
        Some(ValueKind::Double)
    } else if name == "DECIMAL"@ {
        Some(ValueKind::Decimal)
    } else if name == "VARCHAR"@ || name == "TEXT"@ || name == "CHAR"@ || name == "ENUM"@ {
        Some(ValueKind::String)
    } else if name == "TIMESTAMP"@ || name == "DATETIME"@ {
        Some(ValueKind::DateTime)
    } else if name == "BLOB"@ {
        Some(ValueKind::Bytes)
    } else {
        None
    }
}

/// SQL NULL decodes to `Null` whatever the declared type is, supported or
/// not.
pub proof fn lemma_null_decodes_to_null(declared_type: Seq<char>)
    ensures
        decoding(declared_type, RawContent::Null) == Decoding::Value(Decoded::Null),
{
}

/// A cell of a supported type that is not NULL decodes to the variant of
/// its type name, or to no value at all: it is never rejected for its
/// type. It has a value exactly where the driver
/// read it as the Rust type of its type name, and that value is what the
/// driver read, widened.
pub proof fn lemma_supported_type_decodes_to_its_kind(
    declared_type: Seq<char>,
    content: RawContent,
)
    requires
        kind_of_type(declared_type) is Some,
        !(content is Null),
    ensures
        wire_type_table(declared_type) matches Some(expected) && expected.kind() == kind_of_type(
            declared_type,
        )->Some_0,
        !(decoding(declared_type, content) is InvalidType),
        decoding(declared_type, content) matches Decoding::Value(value) ==> value.kind()
            == kind_of_type(declared_type)->Some_0,
        decoding(declared_type, content) is Value <==> (content matches RawContent::Read(read)
            && Some(read.spec_wire_type()) == wire_type_table(declared_type)),
        content matches RawContent::Read(read) ==> (Some(read.spec_wire_type())
            == wire_type_table(declared_type) ==> decoding(declared_type, content)
            == Decoding::Value(read.widened())),
{
}

/// The type names with a variant are those with a Rust type to read
/// their cells as.
pub proof fn lemma_supported_names(declared_type: Seq<char>)
    ensures
        kind_of_type(declared_type) is Some <==> wire_type_table(declared_type) is Some,
{
}

/// A cell of an unsupported type that is not NULL has no decoded value,
/// whatever the driver made of it: it is rejected with the type name.
pub proof fn lemma_unsupported_type_is_rejected(declared_type: Seq<char>, content: RawContent)
    requires
        kind_of_type(declared_type) is None,
        !(content is Null),
    ensures
        decoding(declared_type, content) == Decoding::InvalidType(declared_type),
{
}

impl MysqlValueDecoded {
    /// Widens what the driver read to the variant of its type.
    pub fn from_wire(value: WireValue) -> (decoded: MysqlValueDecoded)
        ensures
            decoded@ == value.widened(),
            decoded@.kind() == value.spec_wire_type().kind(),
    {
        match value {
            WireValue::Bool(b) => MysqlValueDecoded::Bool(b),
            WireValue::I8(v) => MysqlValueDecoded::Int(v as i64),
            WireValue::I16(v) => MysqlValueDecoded::Int(v as i64),
            WireValue::I32(v) => MysqlValueDecoded::Int(v as i64),
            WireValue::I64(v) => MysqlValueDecoded::Int(v),
            WireValue::U8(v) => MysqlValueDecoded::UInt(v as u64),
            WireValue::U16(v) => MysqlValueDecoded::UInt(v as u64),
            WireValue::U32(v) => MysqlValueDecoded::UInt(v as u64),
            WireValue::U64(v) => MysqlValueDecoded::UInt(v),
            WireValue::Double(bits) => MysqlValueDecoded::Double(bits),
            WireValue::Decimal(d) => MysqlValueDecoded::Decimal(d),
            WireValue::Text(s) => MysqlValueDecoded::String(s),
            WireValue::DateTime(t) => MysqlValueDecoded::DateTime(t),
            WireValue::Bytes(b) => MysqlValueDecoded::Bytes(b),
        }
    }

    /// Decodes a cell.
    ///
    /// SQL NULL gives `Null` whatever the declared type. Otherwise a type
    /// name without a decoding is rejected with `InvalidType` and the name;
    /// an error of the driver is handed on in `DecodeError`; and a value
    /// that is not of the Rust type that the name stands for is a
    /// `DecodeError` too.
    pub fn try_from(raw: RawValue) -> (r: Result<MysqlValueDecoded, ValueError>)
        ensures
            match decoding(raw.declared_type@, raw.content) {
                Decoding::Value(v) => r matches Ok(d) && d@ == v,
                Decoding::InvalidType(name) => r matches Err(ValueError::InvalidType(n)) && n@
                    == name,
                Decoding::DriverError(err) => r matches Err(ValueError::DecodeError(e)) && e
                    == err,
                Decoding::Mismatch => r matches Err(ValueError::DecodeError(_)),
            },
    {
        let RawValue { declared_type, content } = raw;
        match content {
            RawContent::Null => Ok(MysqlValueDecoded::Null),
            RawContent::Read(value) => match wire_type_of(declared_type.as_str()) {
                None => Err(ValueError::InvalidType(declared_type)),
                Some(expected) => if value.wire_type() == expected {
                    Ok(MysqlValueDecoded::from_wire(value))
                } else {
                    Err(ValueError::DecodeError(protocol_error("value read as another type")))
                },
            },
            RawContent::Failed(err) => match wire_type_of(declared_type.as_str()) {
                None => Err(ValueError::InvalidType(declared_type)),
                Some(_) => Err(ValueError::from(err)),
            },
            RawContent::Unread => match wire_type_of(declared_type.as_str()) {
                None => Err(ValueError::InvalidType(declared_type)),
                Some(_) => Err(ValueError::DecodeError(protocol_error("value not read"))),
            },
        }
    }
}

} // verus!
