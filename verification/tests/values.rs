use local_store::encoding::fits_encoding;
use local_store::value::{
    bind_param, bind_params, blob_value, column_kind, real_value, row_to_sql_row,
    rows_to_sql_rows, sqlx_value_to_json, unsigned_to_real_bits, Binding, ColumnKind, Fetched,
    Number, RawCell, SQLRow, Value,
};

fn cell(column: &str, value: Fetched) -> RawCell {
    RawCell { column: column.to_string(), value }
}

#[test]
fn text_binds_as_text() {
    assert_eq!(bind_param(&Value::Text("a'b".to_string())), Binding::Text("a'b".to_string()));
    assert_eq!(bind_param(&Value::Text(String::new())), Binding::Text(String::new()));
}

#[test]
fn integers_bind_as_integers() {
    assert_eq!(bind_param(&Value::Number(Number::Integer(0))), Binding::Integer(0));
    assert_eq!(bind_param(&Value::Number(Number::Integer(i64::MIN))), Binding::Integer(i64::MIN));
    assert_eq!(bind_param(&Value::Number(Number::Integer(i64::MAX))), Binding::Integer(i64::MAX));
    assert_eq!(bind_param(&Value::Number(Number::Unsigned(7))), Binding::Integer(7));
    assert_eq!(
        bind_param(&Value::Number(Number::Unsigned(i64::MAX as u64))),
        Binding::Integer(i64::MAX)
    );
}

#[test]
fn unsigned_beyond_the_signed_range_binds_as_the_nearest_real() {
    assert_eq!(
        bind_param(&Value::Number(Number::Unsigned(1u64 << 63))),
        Binding::Real(0x43E0_0000_0000_0000)
    );
    assert_eq!(
        bind_param(&Value::Number(Number::Unsigned(u64::MAX))),
        Binding::Real(0x43F0_0000_0000_0000)
    );
}

#[test]
fn nearest_real_rounds_ties_to_even() {
    let base = 1u64 << 63;
    assert_eq!(unsigned_to_real_bits(base), 0x43E0_0000_0000_0000);
    assert_eq!(unsigned_to_real_bits(base + 1023), 0x43E0_0000_0000_0000);
    assert_eq!(unsigned_to_real_bits(base + 1024), 0x43E0_0000_0000_0000);
    assert_eq!(unsigned_to_real_bits(base + 1025), 0x43E0_0000_0000_0001);
    assert_eq!(unsigned_to_real_bits(base + 2048), 0x43E0_0000_0000_0001);
    assert_eq!(unsigned_to_real_bits(base + 2048 + 1024), 0x43E0_0000_0000_0002);
    assert_eq!(unsigned_to_real_bits(u64::MAX - 1023), 0x43F0_0000_0000_0000);
    assert_eq!(unsigned_to_real_bits(u64::MAX - 1024), 0x43EF_FFFF_FFFF_FFFF);
}

#[test]
fn nearest_real_agrees_with_the_machine_conversion() {
    let base = 1u64 << 63;
    let mut samples: Vec<u64> = vec![base, base + 1, u64::MAX, u64::MAX - 1, u64::MAX - 2047];
    for k in 0..64u64 {
        samples.push(base + k * 511);
        samples.push(base + (k << 11) + 1024);
        samples.push(u64::MAX - k * 1023);
        samples.push(base | (0x9E37_79B9_7F4A_7C15u64.wrapping_mul(k + 1) >> 1));
    }
    for n in samples {
        assert_eq!(unsigned_to_real_bits(n), (n as f64).to_bits(), "for {}", n);
    }
}

#[test]
fn reals_booleans_and_null_bind_as_themselves() {
    let bits = 2.5f64.to_bits();
    assert_eq!(bind_param(&Value::Number(Number::Real(bits))), Binding::Real(bits));
    assert_eq!(bind_param(&Value::Bool(true)), Binding::Bool(true));
    assert_eq!(bind_param(&Value::Bool(false)), Binding::Bool(false));
    assert_eq!(bind_param(&Value::Null), Binding::Null);
}

#[test]
fn lists_and_records_bind_as_null() {
    assert_eq!(bind_param(&Value::Array), Binding::Null);
    assert_eq!(bind_param(&Value::Object), Binding::Null);
}

#[test]
fn parameters_keep_their_positions() {
    let params = vec![
        Value::Text("x".to_string()),
        Value::Null,
        Value::Number(Number::Integer(3)),
        Value::Array,
        Value::Bool(true),
    ];
    assert_eq!(
        bind_params(&params),
        vec![
            Binding::Text("x".to_string()),
            Binding::Null,
            Binding::Integer(3),
            Binding::Null,
            Binding::Bool(true),
        ]
    );
    assert_eq!(bind_params(&vec![]), vec![]);
}

#[test]
fn type_names_select_their_branch() {
    assert_eq!(column_kind("INTEGER"), ColumnKind::Integer);
    assert_eq!(column_kind("REAL"), ColumnKind::Real);
    assert_eq!(column_kind("TEXT"), ColumnKind::Text);
    assert_eq!(column_kind("BLOB"), ColumnKind::Blob);
}

#[test]
fn other_type_names_select_the_fallback() {
    for name in ["NULL", "BOOLEAN", "DATETIME", "NUMERIC", "integer", "INTEGER ", "", "INT", "TEXTS"] {
        assert_eq!(column_kind(name), ColumnKind::Other, "for {:?}", name);
    }
}

#[test]
fn cells_decode_by_their_kind() {
    assert_eq!(sqlx_value_to_json(&Fetched::Integer(-9)), Value::Number(Number::Integer(-9)));
    let bits = 0.1f64.to_bits();
    assert_eq!(sqlx_value_to_json(&Fetched::Real(bits)), Value::Number(Number::Real(bits)));
    assert_eq!(
        sqlx_value_to_json(&Fetched::Text("héllo".to_string())),
        Value::Text("héllo".to_string())
    );
}

#[test]
fn null_and_failed_cells_decode_to_null() {
    assert_eq!(sqlx_value_to_json(&Fetched::Null), Value::Null);
    assert_eq!(sqlx_value_to_json(&Fetched::Failed), Value::Null);
}

#[test]
fn reals_that_are_not_finite_decode_to_null() {
    assert_eq!(real_value(f64::NAN.to_bits()), Value::Null);
    assert_eq!(real_value(f64::INFINITY.to_bits()), Value::Null);
    assert_eq!(real_value(f64::NEG_INFINITY.to_bits()), Value::Null);
    assert_eq!(real_value(0x7FF0_0000_0000_0001), Value::Null);
    assert_eq!(real_value(f64::MAX.to_bits()), Value::Number(Number::Real(f64::MAX.to_bits())));
    assert_eq!(real_value((-0.0f64).to_bits()), Value::Number(Number::Real(1u64 << 63)));
    assert_eq!(real_value(1), Value::Number(Number::Real(1)));
    assert_eq!(sqlx_value_to_json(&Fetched::Real(f64::NAN.to_bits())), Value::Null);
}

#[test]
fn blobs_decode_to_padded_base64() {
    let cases: [(&[u8], &str); 7] = [
        (b"", ""),
        (b"f", "Zg=="),
        (b"fo", "Zm8="),
        (b"foo", "Zm9v"),
        (b"foob", "Zm9vYg=="),
        (b"fooba", "Zm9vYmE="),
        (&[0xfb, 0xff, 0xfe], "+//+"),
    ];
    for (bytes, encoded) in cases {
        assert_eq!(
            sqlx_value_to_json(&Fetched::Blob(bytes.to_vec())),
            Value::Text(encoded.to_string())
        );
    }
}

#[test]
fn blob_value_holds_the_encoded_text() {
    assert_eq!(blob_value("AQID".to_string()), Value::Text("AQID".to_string()));
}

#[test]
fn ordinary_lengths_fit_the_encoder() {
    assert!(fits_encoding(0));
    assert!(fits_encoding(1));
    assert!(fits_encoding(1 << 30));
    assert!(fits_encoding((isize::MAX as usize) / 4 * 3));
    assert!(!fits_encoding((isize::MAX as usize) / 4 * 3 + 1));
    assert!(!fits_encoding(usize::MAX));
}

#[test]
fn row_has_its_columns_and_values_in_order() {
    let row = row_to_sql_row(&vec![
        cell("n", Fetched::Integer(1)),
        cell("s", Fetched::Text("x".to_string())),
        cell("z", Fetched::Null),
    ]);
    assert_eq!(
        row,
        SQLRow {
            columns: vec!["n".to_string(), "s".to_string(), "z".to_string()],
            rows: vec![Value::Number(Number::Integer(1)), Value::Text("x".to_string()), Value::Null],
        }
    );
}

#[test]
fn undecodable_cell_does_not_abort_the_row() {
    let row = row_to_sql_row(&vec![
        cell("a", Fetched::Failed),
        cell("b", Fetched::Integer(2)),
        cell("a", Fetched::Blob(vec![1, 2, 3])),
    ]);
    assert_eq!(row.columns, vec!["a", "b", "a"]);
    assert_eq!(
        row.rows,
        vec![Value::Null, Value::Number(Number::Integer(2)), Value::Text("AQID".to_string())]
    );
}

#[test]
fn empty_row_is_empty() {
    let row = row_to_sql_row(&vec![]);
    assert!(row.columns.is_empty());
    assert!(row.rows.is_empty());
}

#[test]
fn rows_keep_the_order_of_the_engine() {
    let rows = rows_to_sql_rows(&vec![
        vec![cell("x", Fetched::Integer(3))],
        vec![cell("x", Fetched::Integer(1))],
        vec![cell("x", Fetched::Integer(2))],
    ]);
    let values: Vec<Value> = rows.into_iter().map(|mut r| r.rows.remove(0)).collect();
    assert_eq!(
        values,
        vec![
            Value::Number(Number::Integer(3)),
            Value::Number(Number::Integer(1)),
            Value::Number(Number::Integer(2)),
        ]
    );
    assert!(rows_to_sql_rows(&vec![]).is_empty());
}
