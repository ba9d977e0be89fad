use dbclone::extractor::ExtractorError;
use dbclone::value::{
    wire_type_of, MysqlValueDecoded, RawContent, RawValue, ValueError, WireType, WireValue,
};

fn raw(declared_type: &str, content: RawContent) -> RawValue {
    RawValue { declared_type: declared_type.to_string(), content }
}

fn read(declared_type: &str, value: WireValue) -> Result<MysqlValueDecoded, ValueError> {
    MysqlValueDecoded::try_from(raw(declared_type, RawContent::Read(value)))
}

fn moment() -> chrono::NaiveDateTime {
    chrono::NaiveDate::from_ymd_opt(2024, 2, 29).unwrap().and_hms_opt(13, 14, 15).unwrap()
}

#[test]
fn every_supported_type_name_has_its_wire_type() {
    let table = [
        ("BOOLEAN", WireType::Bool),
        ("TINYINT", WireType::I8),
        ("SMALLINT", WireType::I16),
        ("INT", WireType::I32),
        ("BIGINT", WireType::I64),
        ("TINYINT UNSIGNED", WireType::U8),
        ("SMALLINT UNSIGNED", WireType::U16),
        ("MEDIUMINT UNSIGNED", WireType::U32),
        ("INT UNSIGNED", WireType::U32),
        ("BIGINT UNSIGNED", WireType::U64),
        ("FLOAT", WireType::Double),
        ("DOUBLE", WireType::Double),
        ("DECIMAL", WireType::Decimal),
        ("VARCHAR", WireType::Text),
        ("TEXT", WireType::Text),
        ("CHAR", WireType::Text),
        ("ENUM", WireType::Text),
        ("TIMESTAMP", WireType::DateTime),
        ("DATETIME", WireType::DateTime),
        ("BLOB", WireType::Bytes),
    ];
    for (name, expected) in table {
        assert_eq!(wire_type_of(name), Some(expected), "{}", name);
    }
}

#[test]
fn type_names_are_matched_exactly() {
    assert_eq!(wire_type_of("int"), None);
    assert_eq!(wire_type_of("Int"), None);
    assert_eq!(wire_type_of(" INT"), None);
    assert_eq!(wire_type_of("INT "), None);
    assert_eq!(wire_type_of("INTEGER"), None);
    assert_eq!(wire_type_of(""), None);
    assert_eq!(wire_type_of("MEDIUMINT"), None);
    assert_eq!(wire_type_of("JSON"), None);
    assert_eq!(wire_type_of("GEOMETRY"), None);
}

#[test]
fn boolean_decodes_to_bool() {
    assert_eq!(read("BOOLEAN", WireValue::Bool(true)).unwrap(), MysqlValueDecoded::Bool(true));
    assert_eq!(read("BOOLEAN", WireValue::Bool(false)).unwrap(), MysqlValueDecoded::Bool(false));
}

#[test]
fn signed_widths_widen_to_int() {
    assert_eq!(read("TINYINT", WireValue::I8(-128)).unwrap(), MysqlValueDecoded::Int(-128));
    assert_eq!(read("TINYINT", WireValue::I8(127)).unwrap(), MysqlValueDecoded::Int(127));
    assert_eq!(read("SMALLINT", WireValue::I16(-32768)).unwrap(), MysqlValueDecoded::Int(-32768));
    assert_eq!(
        read("INT", WireValue::I32(i32::MIN)).unwrap(),
        MysqlValueDecoded::Int(-2147483648)
    );
    assert_eq!(read("INT", WireValue::I32(i32::MAX)).unwrap(), MysqlValueDecoded::Int(2147483647));
    assert_eq!(
        read("BIGINT", WireValue::I64(i64::MIN)).unwrap(),
        MysqlValueDecoded::Int(i64::MIN)
    );
}

#[test]
fn unsigned_widths_widen_to_uint() {
    assert_eq!(read("TINYINT UNSIGNED", WireValue::U8(255)).unwrap(), MysqlValueDecoded::UInt(255));
    assert_eq!(
        read("SMALLINT UNSIGNED", WireValue::U16(65535)).unwrap(),
        MysqlValueDecoded::UInt(65535)
    );
    assert_eq!(
        read("MEDIUMINT UNSIGNED", WireValue::U32(16777215)).unwrap(),
        MysqlValueDecoded::UInt(16777215)
    );
    assert_eq!(
        read("INT UNSIGNED", WireValue::U32(u32::MAX)).unwrap(),
        MysqlValueDecoded::UInt(4294967295)
    );
    assert_eq!(
        read("BIGINT UNSIGNED", WireValue::U64(u64::MAX)).unwrap(),
        MysqlValueDecoded::UInt(u64::MAX)
    );
}

#[test]
fn float_and_double_decode_to_double() {
    let bits = 1.5f64.to_bits();
    assert_eq!(read("FLOAT", WireValue::Double(bits)).unwrap(), MysqlValueDecoded::Double(bits));
    assert_eq!(read("DOUBLE", WireValue::Double(bits)).unwrap(), MysqlValueDecoded::Double(bits));
    match read("DOUBLE", WireValue::Double((-0.25f64).to_bits())).unwrap() {
        MysqlValueDecoded::Double(b) => assert_eq!(f64::from_bits(b), -0.25),
        other => panic!("{:?}", other),
    }
}

#[test]
fn decimal_decodes_to_decimal() {
    let d = sqlx::types::Decimal::new(1234567, 3);
    assert_eq!(read("DECIMAL", WireValue::Decimal(d)).unwrap(), MysqlValueDecoded::Decimal(d));
}

#[test]
fn text_types_decode_to_string() {
    for name in ["VARCHAR", "TEXT", "CHAR", "ENUM"] {
        assert_eq!(
            read(name, WireValue::Text("héllo".to_string())).unwrap(),
            MysqlValueDecoded::String("héllo".to_string())
        );
    }
}

#[test]
fn timestamps_decode_to_datetime() {
    for name in ["TIMESTAMP", "DATETIME"] {
        assert_eq!(
            read(name, WireValue::DateTime(moment())).unwrap(),
            MysqlValueDecoded::DateTime(moment())
        );
    }
}

#[test]
fn blob_decodes_to_bytes() {
    assert_eq!(
        read("BLOB", WireValue::Bytes(vec![0, 159, 255])).unwrap(),
        MysqlValueDecoded::Bytes(vec![0, 159, 255])
    );
}

#[test]
fn null_decodes_to_null_whatever_the_type() {
    for name in ["INT", "VARCHAR", "BLOB", "DATETIME", "GEOMETRY", "", "nonsense"] {
        assert_eq!(
            MysqlValueDecoded::try_from(raw(name, RawContent::Null)).unwrap(),
            MysqlValueDecoded::Null
        );
    }
}

#[test]
fn unsupported_type_is_rejected_with_its_name() {
    for content in [
        RawContent::Read(WireValue::I32(1)),
        RawContent::Unread,
        RawContent::Failed(sqlx::Error::RowNotFound),
    ] {
        match MysqlValueDecoded::try_from(raw("GEOMETRY", content)) {
            Err(ValueError::InvalidType(name)) => assert_eq!(name, "GEOMETRY"),
            other => panic!("{:?}", other),
        }
    }
}

#[test]
fn driver_error_is_handed_on() {
    let failed = RawContent::Failed(sqlx::Error::ColumnNotFound("c".to_string()));
    match MysqlValueDecoded::try_from(raw("INT", failed)) {
        Err(ValueError::DecodeError(sqlx::Error::ColumnNotFound(name))) => assert_eq!(name, "c"),
        other => panic!("{:?}", other),
    }
}

#[test]
fn value_of_another_type_is_a_decode_error() {
    assert!(matches!(read("INT", WireValue::I64(1)), Err(ValueError::DecodeError(_))));
    assert!(matches!(
        read("INT", WireValue::Text("1".to_string())),
        Err(ValueError::DecodeError(_))
    ));
    assert!(matches!(read("VARCHAR", WireValue::Bytes(vec![])), Err(ValueError::DecodeError(_))));
    assert!(matches!(
        MysqlValueDecoded::try_from(raw("INT", RawContent::Unread)),
        Err(ValueError::DecodeError(_))
    ));
}

#[test]
fn from_wire_keeps_the_number() {
    assert_eq!(MysqlValueDecoded::from_wire(WireValue::I8(-1)), MysqlValueDecoded::Int(-1));
    assert_eq!(MysqlValueDecoded::from_wire(WireValue::U16(7)), MysqlValueDecoded::UInt(7));
    assert_eq!(WireValue::I8(-1).wire_type(), WireType::I8);
    assert_eq!(WireValue::Text(String::new()).wire_type(), WireType::Text);
}

#[test]
fn value_error_messages() {
    assert_eq!(ValueError::InvalidType("JSON".to_string()).message(), "Invalid type: JSON");
    let decode = ValueError::from(sqlx::Error::RowNotFound);
    assert_eq!(
        decode.message(),
        format!("Decode error: {}", sqlx::Error::RowNotFound)
    );
}

#[test]
fn extractor_error_messages() {
    let sqlx_error = ExtractorError::from(sqlx::Error::PoolTimedOut);
    assert!(matches!(sqlx_error, ExtractorError::Sqlx(sqlx::Error::PoolTimedOut)));
    assert_eq!(sqlx_error.message(), format!("Sqlx error: {}", sqlx::Error::PoolTimedOut));
    let value_error = ExtractorError::from(ValueError::InvalidType("SET".to_string()));
    assert!(matches!(value_error, ExtractorError::ValueError(ValueError::InvalidType(_))));
    assert_eq!(value_error.message(), "Value error: Invalid type: SET");
}
