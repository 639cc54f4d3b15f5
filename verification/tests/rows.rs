use std::sync::Arc;

use rowdec::errors::Error;
use rowdec::rows::{ColumnSpec, RawColumn, ResultBody, ResultSchema, Row};
use rowdec::tags::{TargetType, TypeTag};
use rowdec::values::Value;

fn col(name: &str, tag: TypeTag) -> ColumnSpec {
    ColumnSpec { name: name.to_string(), wire_type: tag }
}

fn schema3() -> Arc<ResultSchema> {
    Arc::new(ResultSchema {
        specs: vec![
            col("id", TypeTag::Int),
            col("name", TypeTag::Text),
            col("tags", TypeTag::List(Box::new(TypeTag::Text))),
        ],
    })
}

fn sample_row() -> Row {
    let body = ResultBody {
        schema: schema3(),
        rows_content: vec![vec![
            RawColumn::Present(vec![0, 0, 0, 42]),
            RawColumn::Present(b"alice".to_vec()),
            RawColumn::Absent,
        ]],
    };
    Row::from_frame_body(body).into_iter().next().unwrap()
}

#[test]
fn scenario_lookup_by_name() {
    let row = sample_row();
    assert_eq!(row.get_by_name("id", TargetType::Int), Ok(Some(Value::Int(42))));
    assert_eq!(
        row.get_by_name("name", TargetType::Text),
        Ok(Some(Value::Text("alice".to_string())))
    );
    assert_eq!(row.get_by_name("tags", TargetType::List), Ok(None));
}

#[test]
fn scenario_index_type_mismatch() {
    let row = sample_row();
    assert_eq!(row.get_by_index(1, TargetType::Int), Err(Error::TypeMismatch));
}

#[test]
fn scenario_missing_name_not_located() {
    let row = sample_row();
    assert_eq!(row.get_by_name("missing", TargetType::Int), Err(Error::ColumnNotLocated));
}

#[test]
fn scenario_empty_buffer_is_not_null() {
    let schema = Arc::new(ResultSchema { specs: vec![col("n", TypeTag::Int)] });
    let body = ResultBody {
        schema,
        rows_content: vec![
            vec![RawColumn::Present(Vec::new())],
            vec![RawColumn::Absent],
        ],
    };
    let rows = Row::from_frame_body(body);
    // zero bytes cannot form a four-byte integer, while a null column is fine
    assert_eq!(rows[0].get_by_name("n", TargetType::Int), Err(Error::MalformedEncoding));
    assert_eq!(rows[1].get_by_name("n", TargetType::Int), Ok(None));
}

#[test]
fn row_count_matches_entries() {
    let entries = vec![
        vec![
            RawColumn::Present(vec![0, 0, 0, 1]),
            RawColumn::Present(b"a".to_vec()),
            RawColumn::Absent,
        ],
        vec![
            RawColumn::Present(vec![0, 0, 0, 2]),
            RawColumn::Present(b"b".to_vec()),
            RawColumn::Absent,
        ],
        vec![RawColumn::Absent, RawColumn::Absent, RawColumn::Absent],
    ];
    let body = ResultBody { schema: schema3(), rows_content: entries };
    let rows = Row::from_frame_body(body);
    assert_eq!(rows.len(), 3);
    // each row is aligned with the schema: its last column is reachable and
    // nothing stands past the schema's arity
    for row in &rows {
        assert!(row.get_by_index(2, TargetType::List).is_ok());
        assert_eq!(row.get_by_index(3, TargetType::List), Err(Error::ColumnNotLocated));
    }
    assert_eq!(rows[0].get_by_name("id", TargetType::Int), Ok(Some(Value::Int(1))));
    assert_eq!(rows[1].get_by_name("id", TargetType::Int), Ok(Some(Value::Int(2))));
}

#[test]
fn by_name_and_by_index_agree() {
    let row = sample_row();
    let names = ["id", "name", "tags"];
    let targets = [TargetType::Int, TargetType::Text, TargetType::List];
    for i in 0..3 {
        let (by_name_spec, by_name_raw) = row.get_col_spec_by_name(names[i]).unwrap();
        let (by_index_spec, by_index_raw) = row.get_col_spec_by_index(i).unwrap();
        assert_eq!(by_name_spec.name, by_index_spec.name);
        assert_eq!(by_name_raw, by_index_raw);
        assert_eq!(row.get_by_name(names[i], targets[i]), row.get_by_index(i, targets[i]));
    }
}

#[test]
fn absent_column_is_none_for_every_target() {
    let schema = Arc::new(ResultSchema { specs: vec![col("x", TypeTag::Int)] });
    let body = ResultBody { schema, rows_content: vec![vec![RawColumn::Absent]] };
    let row = Row::from_frame_body(body).into_iter().next().unwrap();
    let targets = [
        TargetType::Text,
        TargetType::Boolean,
        TargetType::BigInt,
        TargetType::Int,
        TargetType::SmallInt,
        TargetType::TinyInt,
        TargetType::Double,
        TargetType::Float,
        TargetType::Inet,
        TargetType::Uuid,
        TargetType::Timestamp,
        TargetType::List,
        TargetType::Mapping,
        TargetType::Udt,
        TargetType::Tuple,
    ];
    for t in targets {
        assert_eq!(row.get_by_name("x", t), Ok(None));
        assert_eq!(row.get_by_index(0, t), Ok(None));
    }
}

#[test]
fn repeated_calls_yield_equal_results() {
    let row = sample_row();
    assert_eq!(
        row.get_by_name("id", TargetType::Int),
        row.get_by_name("id", TargetType::Int)
    );
    assert_eq!(
        row.get_by_index(1, TargetType::Text),
        row.get_by_index(1, TargetType::Text)
    );
    assert_eq!(
        row.get_by_name("tags", TargetType::List),
        row.get_by_name("tags", TargetType::List)
    );
}

#[test]
fn family_mismatch_never_yields_a_value() {
    let row = sample_row();
    // an int column refuses every other family, whatever the bytes would allow
    for t in [
        TargetType::Text,
        TargetType::BigInt,
        TargetType::Float,
        TargetType::Uuid,
        TargetType::List,
    ] {
        assert_eq!(row.get_by_name("id", t), Err(Error::TypeMismatch));
    }
    assert_eq!(row.get_by_name("name", TargetType::Boolean), Err(Error::TypeMismatch));
}

#[test]
fn duplicate_names_first_occurrence_wins() {
    let schema = Arc::new(ResultSchema {
        specs: vec![col("v", TypeTag::Int), col("v", TypeTag::Int)],
    });
    let body = ResultBody {
        schema,
        rows_content: vec![vec![
            RawColumn::Present(vec![0, 0, 0, 7]),
            RawColumn::Present(vec![0, 0, 0, 8]),
        ]],
    };
    let row = Row::from_frame_body(body).into_iter().next().unwrap();
    assert_eq!(row.get_by_name("v", TargetType::Int), Ok(Some(Value::Int(7))));
}

#[test]
fn locator_out_of_range_is_none() {
    let row = sample_row();
    assert!(row.get_col_spec_by_index(2).is_some());
    assert!(row.get_col_spec_by_index(3).is_none());
    assert!(row.get_col_spec_by_name("nope").is_none());
}

#[test]
fn lookup_is_case_sensitive() {
    let row = sample_row();
    assert_eq!(row.get_by_name("Id", TargetType::Int), Err(Error::ColumnNotLocated));
    assert_eq!(row.get_by_name("ID", TargetType::Int), Err(Error::ColumnNotLocated));
}
