use dbclone::json::JsonValue;
use dbclone::transformer::{
    merge_documents, patch_changes_nothing, Literal, TransformError, Transformer,
};
use dbclone::value::MysqlValueDecoded;

fn moment() -> chrono::NaiveDateTime {
    chrono::NaiveDate::from_ymd_opt(2001, 2, 3).unwrap().and_hms_opt(4, 5, 6).unwrap()
}

fn samples() -> Vec<MysqlValueDecoded> {
    vec![
        MysqlValueDecoded::Null,
        MysqlValueDecoded::Bool(true),
        MysqlValueDecoded::Int(-5),
        MysqlValueDecoded::UInt(5),
        MysqlValueDecoded::Double(2.5f64.to_bits()),
        MysqlValueDecoded::Decimal(sqlx::types::Decimal::new(314, 2)),
        MysqlValueDecoded::String("{\"a\":1}".to_string()),
        MysqlValueDecoded::DateTime(moment()),
        MysqlValueDecoded::Bytes(b"{}".to_vec()),
    ]
}

fn string(s: &str) -> MysqlValueDecoded {
    MysqlValueDecoded::String(s.to_string())
}

#[test]
fn nullify_returns_null_for_every_value() {
    for value in samples() {
        assert_eq!(Transformer::Nullify.transform(value), MysqlValueDecoded::Null);
    }
    for value in samples() {
        assert_eq!(Transformer::Nullify.try_transform(value), (MysqlValueDecoded::Null, None));
    }
}

#[test]
fn replace_returns_the_literal_for_every_value() {
    for value in samples() {
        assert_eq!(Transformer::Replace(Literal::Null).transform(value), MysqlValueDecoded::Null);
    }
    for value in samples() {
        assert_eq!(
            Transformer::Replace(Literal::Bool(false)).transform(value),
            MysqlValueDecoded::Bool(false)
        );
    }
    for value in samples() {
        assert_eq!(Transformer::Replace(Literal::Int(-42)).transform(value), MysqlValueDecoded::Int(-42));
    }
    for value in samples() {
        assert_eq!(
            Transformer::Replace(Literal::UInt(u64::MAX)).transform(value),
            MysqlValueDecoded::UInt(u64::MAX)
        );
    }
    for value in samples() {
        assert_eq!(
            Transformer::Replace(Literal::Double(0.5f64.to_bits())).transform(value),
            MysqlValueDecoded::Double(0.5f64.to_bits())
        );
    }
    for value in samples() {
        assert_eq!(
            Transformer::Replace(Literal::String("redacted".to_string())).transform(value),
            string("redacted")
        );
    }
}

#[test]
fn replace_with_a_composite_literal_gives_null() {
    for value in samples() {
        assert_eq!(Transformer::Replace(Literal::Sequence).transform(value), MysqlValueDecoded::Null);
    }
    for value in samples() {
        assert_eq!(Transformer::Replace(Literal::Mapping).transform(value), MysqlValueDecoded::Null);
    }
    for value in samples() {
        assert_eq!(Transformer::Replace(Literal::Tagged).transform(value), MysqlValueDecoded::Null);
    }
}

#[test]
fn number_literal_prefers_the_signed_reading() {
    assert_eq!(Literal::number(Some(7), Some(7), 7f64.to_bits()), Literal::Int(7));
    assert_eq!(Literal::number(Some(-7), None, (-7f64).to_bits()), Literal::Int(-7));
    assert_eq!(
        Literal::number(None, Some(u64::MAX), (u64::MAX as f64).to_bits()),
        Literal::UInt(u64::MAX)
    );
    assert_eq!(Literal::number(None, None, 1.25f64.to_bits()), Literal::Double(1.25f64.to_bits()));
    assert_eq!(Literal::Int(3).to_value(), MysqlValueDecoded::Int(3));
    assert_eq!(Literal::Tagged.to_value(), MysqlValueDecoded::Null);
}

#[test]
fn json_merge_round_trip_keeps_string() {
    let t = Transformer::JsonMerge("{\"b\":3,\"c\":4}".to_string());
    let out = t.try_transform(string("{\"a\":1,\"b\":2}"));
    assert_eq!(out, (string("{\"a\":1,\"b\":3,\"c\":4}"), None));
}

#[test]
fn json_merge_round_trip_keeps_bytes() {
    let t = Transformer::JsonMerge("{\"b\":3,\"c\":4}".to_string());
    let out = t.try_transform(MysqlValueDecoded::Bytes(b"{\"a\":1,\"b\":2}".to_vec()));
    assert_eq!(out, (MysqlValueDecoded::Bytes(b"{\"a\":1,\"b\":3,\"c\":4}".to_vec()), None));
}

#[test]
fn json_merge_reads_and_writes_every_kind_of_value() {
    let t = Transformer::JsonMerge("{\"z\":{\"k\":[1,2.5,\"s\",null,true]}}".to_string());
    let out = t.transform(string(" { \"n\" : -1 , \"z\" : { \"j\" : false } } "));
    assert_eq!(out, string("{\"n\":-1,\"z\":{\"j\":false,\"k\":[1,2.5,\"s\",null,true]}}"));
}

#[test]
fn json_merge_of_an_empty_object_keeps_the_document() {
    let t = Transformer::JsonMerge("{}".to_string());
    assert_eq!(t.transform(string("{\"a\":1,\"b\":{\"c\":[]}}")), string("{\"a\":1,\"b\":{\"c\":[]}}"));
    assert_eq!(t.transform(string("{}")), string("{}"));
}

#[test]
fn json_merge_of_an_empty_object_keeps_what_is_no_object() {
    let t = Transformer::JsonMerge("{}".to_string());
    assert_eq!(t.try_transform(string("5")), (string("5"), None));
    assert_eq!(t.try_transform(string("[1,2]")), (string("[1,2]"), None));
    assert_eq!(t.try_transform(string("\"x\"")), (string("\"x\""), None));
    assert_eq!(t.try_transform(string("null")), (string("null"), None));
    assert_eq!(
        t.try_transform(MysqlValueDecoded::Bytes(b"[1,2]".to_vec())),
        (MysqlValueDecoded::Bytes(b"[1,2]".to_vec()), None)
    );
}

#[test]
fn json_merge_of_an_empty_object_keeps_the_cell_byte_for_byte() {
    for patch in ["{}", " { } ", "{\n}"] {
        let t = Transformer::JsonMerge(patch.to_string());
        assert_eq!(t.try_transform(string("{ \"a\": 1 }")), (string("{ \"a\": 1 }"), None));
        assert_eq!(
            t.try_transform(string(" {\"b\":2, \"a\":1.50} ")),
            (string(" {\"b\":2, \"a\":1.50} "), None)
        );
        assert_eq!(
            t.try_transform(MysqlValueDecoded::Bytes(b" [ 1 , 2 ] ".to_vec())),
            (MysqlValueDecoded::Bytes(b" [ 1 , 2 ] ".to_vec()), None)
        );
    }
}

#[test]
fn json_merge_of_an_empty_object_keeps_every_value() {
    let t = Transformer::JsonMerge("{}".to_string());
    for (value, same) in samples().into_iter().zip(samples()) {
        assert_eq!(t.transform(value), same);
    }
    assert_eq!(
        t.try_transform(string("not json")),
        (string("not json"), Some(TransformError::InvalidJson))
    );
}

#[test]
fn json_merge_writes_the_cell_anew_where_the_patch_has_members() {
    let t = Transformer::JsonMerge("{\"a\":{}}".to_string());
    assert_eq!(t.transform(string("{ \"a\": 1 }")), string("{\"a\":1}"));
    assert_eq!(t.transform(string("{ }")), string("{\"a\":{}}"));
    assert_eq!(t.transform(string("7")), string("{\"a\":{}}"));
}

#[test]
fn json_merge_with_a_patch_that_is_no_object_replaces_the_document() {
    let t = Transformer::JsonMerge("[1]".to_string());
    assert_eq!(t.transform(string("{\"a\":1}")), string("[1]"));
}

#[test]
fn malformed_cell_is_left_unchanged() {
    let t = Transformer::JsonMerge("{\"a\":1}".to_string());
    for cell in ["", "{", "{\"a\":}", "not json", "{\"a\":1} x", "{'a':1}"] {
        assert_eq!(t.try_transform(string(cell)), (string(cell), Some(TransformError::InvalidJson)));
        assert_eq!(
            t.try_transform(MysqlValueDecoded::Bytes(cell.as_bytes().to_vec())),
            (MysqlValueDecoded::Bytes(cell.as_bytes().to_vec()), Some(TransformError::InvalidJson))
        );
        assert_eq!(t.transform(string(cell)), string(cell));
    }
    let not_utf8 = vec![b'"', 0xff, b'"'];
    assert_eq!(
        t.try_transform(MysqlValueDecoded::Bytes(vec![b'"', 0xff, b'"'])),
        (MysqlValueDecoded::Bytes(not_utf8), Some(TransformError::InvalidJson))
    );
}

#[test]
fn malformed_patch_leaves_the_cell_unchanged() {
    let t = Transformer::JsonMerge("{oops".to_string());
    assert_eq!(
        t.try_transform(string("{ \"a\" : 1 }")),
        (string("{ \"a\" : 1 }"), Some(TransformError::InvalidPatch))
    );
    assert_eq!(
        t.try_transform(MysqlValueDecoded::Bytes(b" [ ] ".to_vec())),
        (MysqlValueDecoded::Bytes(b" [ ] ".to_vec()), Some(TransformError::InvalidPatch))
    );
}

#[test]
fn json_merge_passes_other_variants_through() {
    let t = Transformer::JsonMerge("{\"a\":1}".to_string());
    let others = vec![
        MysqlValueDecoded::Null,
        MysqlValueDecoded::Bool(true),
        MysqlValueDecoded::Int(-5),
        MysqlValueDecoded::UInt(5),
        MysqlValueDecoded::Double(2.5f64.to_bits()),
        MysqlValueDecoded::Decimal(sqlx::types::Decimal::new(314, 2)),
        MysqlValueDecoded::DateTime(moment()),
    ];
    let expected = vec![
        MysqlValueDecoded::Null,
        MysqlValueDecoded::Bool(true),
        MysqlValueDecoded::Int(-5),
        MysqlValueDecoded::UInt(5),
        MysqlValueDecoded::Double(2.5f64.to_bits()),
        MysqlValueDecoded::Decimal(sqlx::types::Decimal::new(314, 2)),
        MysqlValueDecoded::DateTime(moment()),
    ];
    for (value, same) in others.into_iter().zip(expected) {
        assert_eq!(t.try_transform(value), (same, Some(TransformError::Unsupported)));
    }
}

#[test]
fn merge_documents_names_what_was_not_read() {
    let one = || JsonValue::Number(serde_json::Number::from(1));
    assert_eq!(merge_documents(None, Some(one())), Err(TransformError::InvalidJson));
    assert_eq!(merge_documents(None, None), Err(TransformError::InvalidJson));
    assert_eq!(merge_documents(Some(one()), None), Err(TransformError::InvalidPatch));
    assert_eq!(merge_documents(Some(JsonValue::Null), Some(one())), Ok(one()));
    assert_eq!(merge_documents(Some(one()), Some(JsonValue::Object(vec![]))), Ok(one()));
    assert!(patch_changes_nothing(&Some(JsonValue::Object(vec![]))));
    assert!(!patch_changes_nothing(&Some(one())));
    assert!(!patch_changes_nothing(&None));
    let target = JsonValue::Object(vec![("a".to_string(), one())]);
    let patch = JsonValue::Object(vec![("b".to_string(), JsonValue::Bool(true))]);
    assert_eq!(
        merge_documents(Some(target), Some(patch)),
        Ok(JsonValue::Object(vec![
            ("a".to_string(), one()),
            ("b".to_string(), JsonValue::Bool(true)),
        ]))
    );
}
