use rusqlite::types::Value;
use rusqlite::{Connection, OptionalExtension, Result};
use weather_store::store::{
    create_params, date_of, date_params, gather, measurement_of, observation_of, settle,
    settle_rows, update_params,
};
use weather_store::{
    create_entry, delete_entry, read_entry, update_entry, DbError, Observation, SqlValue,
};

type Stored = (String, f64, f64, f64, f64, f64, f64);

fn setup_in_memory_db() -> Connection {
    let conn = Connection::open_in_memory().expect("Failed to create in-memory database");
    conn.execute(
        "CREATE TABLE WeatherDB (
            Date TEXT,
            Temperature_Minimum REAL,
            Temperature_Maximum REAL,
            Precipitation REAL,
            Snowfall REAL,
            Snow_Depth REAL,
            Average_Wind_Speed REAL
        )",
        [],
    )
    .expect("Failed to create WeatherDB table in in-memory database");
    conn
}

fn row_of(row: &rusqlite::Row<'_>) -> Result<Stored> {
    Ok((
        row.get(0)?,
        row.get(1)?,
        row.get(2)?,
        row.get(3)?,
        row.get(4)?,
        row.get(5)?,
        row.get(6)?,
    ))
}

fn all_rows(conn: &Connection) -> Vec<Stored> {
    let mut stmt = conn
        .prepare("SELECT * FROM WeatherDB ORDER BY rowid")
        .expect("prepare");
    let rows = stmt.query_map([], row_of).expect("query");
    rows.collect::<Result<Vec<Stored>>>().expect("rows")
}

fn count(conn: &Connection) -> i64 {
    conn.query_row("SELECT COUNT(*) FROM WeatherDB", [], |row| row.get(0))
        .expect("count")
}

fn real_of(value: &SqlValue) -> f64 {
    match value {
        SqlValue::Real(Value::Real(x)) => *x,
        other => panic!("not a real: {:?}", other),
    }
}

fn measurements(o: &Observation) -> [f64; 6] {
    [
        real_of(&o.temperature_minimum),
        real_of(&o.temperature_maximum),
        real_of(&o.precipitation),
        real_of(&o.snowfall),
        real_of(&o.snow_depth),
        real_of(&o.average_wind_speed),
    ]
}

#[test]
fn test_create_entry() -> Result<()> {
    let conn = setup_in_memory_db();
    let new_record = ["2024-10-04", "60.0", "85.0", "0.2", "0.0", "0.0", "12.5"];

    create_entry(&conn, &new_record).expect("create");

    let result: Stored = conn.query_row(
        "SELECT * FROM WeatherDB WHERE Date = ?",
        [&new_record[0]],
        row_of,
    )?;
    assert_eq!(result.0, new_record[0], "Create test failed: Record mismatch.");
    println!("Create test passed!");
    Ok(())
}

#[test]
fn test_read_entry() -> Result<()> {
    let conn = setup_in_memory_db();
    let new_record = ["2022-01-08", "21.0", "42.0", "0.0", "0.0", "0.0", "3.8"];
    create_entry(&conn, &new_record).expect("create");

    let result = read_entry(&conn, "2022-01-08").expect("read");
    assert!(!result.is_empty(), "Read test failed: No data found.");
    println!("Read test passed!");
    Ok(())
}

#[test]
fn test_update_entry() -> Result<()> {
    let conn = setup_in_memory_db();
    let initial_record = ["2022-01-17", "20.0", "40.0", "0.0", "0.0", "0.0", "5.0"];
    create_entry(&conn, &initial_record).expect("create");

    let updated_data = ["65.0", "90.0", "0.1", "0.0", "0.0", "10.0"];
    update_entry(&conn, "2022-01-17", &updated_data).expect("update");

    let result: Stored = conn.query_row(
        "SELECT * FROM WeatherDB WHERE Date = ?",
        ["2022-01-17"],
        row_of,
    )?;
    assert_eq!(result.1, 65.0, "Update test failed: Data mismatch.");
    println!("Update test passed!");
    Ok(())
}

#[test]
fn test_delete_entry() -> Result<()> {
    let conn = setup_in_memory_db();
    let new_record = ["2022-01-26", "15.0", "30.0", "0.0", "0.0", "0.0", "4.0"];
    create_entry(&conn, &new_record).expect("create");

    delete_entry(&conn, "2022-01-26").expect("delete");

    let result: Option<String> = conn
        .query_row(
            "SELECT Date FROM WeatherDB WHERE Date = ?",
            ["2022-01-26"],
            |row| row.get(0),
        )
        .optional()?;

    assert!(result.is_none(), "Delete test failed: Record still exists.");
    println!("Delete test passed!");
    Ok(())
}

#[test]
fn create_stores_every_column_in_order() {
    let conn = setup_in_memory_db();
    create_entry(&conn, &["2024-10-04", "60.0", "85.0", "0.2", "0.0", "0.0", "12.5"])
        .expect("create");
    assert_eq!(
        all_rows(&conn),
        vec![("2024-10-04".to_string(), 60.0, 85.0, 0.2, 0.0, 0.0, 12.5)]
    );
}

#[test]
fn create_ignores_fields_after_the_seventh() {
    let conn = setup_in_memory_db();
    create_entry(&conn, &["2024-10-05", "1.5", "2.5", "3.5", "4.5", "5.5", "6.5", "7.5", "x"])
        .expect("create");
    assert_eq!(
        all_rows(&conn),
        vec![("2024-10-05".to_string(), 1.5, 2.5, 3.5, 4.5, 5.5, 6.5)]
    );
}

#[test]
fn create_then_read_returns_the_row() {
    let conn = setup_in_memory_db();
    create_entry(&conn, &["2024-10-04", "60.0", "85.0", "0.2", "0.0", "0.0", "12.5"])
        .expect("create");
    let rows = read_entry(&conn, "2024-10-04").expect("read");
    assert_eq!(rows.len(), 1);
    assert_eq!(rows[0].date, "2024-10-04");
    assert_eq!(measurements(&rows[0]), [60.0, 85.0, 0.2, 0.0, 0.0, 12.5]);
}

#[test]
fn read_matches_the_date_exactly() {
    let conn = setup_in_memory_db();
    create_entry(&conn, &["2024-10-04", "1.0", "2.0", "3.0", "4.0", "5.0", "6.0"]).expect("create");
    create_entry(&conn, &["2024-10-05", "7.0", "8.0", "9.0", "1.0", "2.0", "3.0"]).expect("create");
    let rows = read_entry(&conn, "2024-10-05").expect("read");
    assert_eq!(rows.len(), 1);
    assert_eq!(rows[0].date, "2024-10-05");
    assert_eq!(measurements(&rows[0]), [7.0, 8.0, 9.0, 1.0, 2.0, 3.0]);
    assert!(read_entry(&conn, "2024-10-0").expect("read").is_empty());
    assert!(read_entry(&conn, " 2024-10-04").expect("read").is_empty());
    assert!(read_entry(&conn, "2024-10-04 ").expect("read").is_empty());
}

#[test]
fn read_of_an_absent_or_empty_date_is_empty() {
    let conn = setup_in_memory_db();
    create_entry(&conn, &["2024-10-04", "1.0", "2.0", "3.0", "4.0", "5.0", "6.0"]).expect("create");
    assert!(read_entry(&conn, "1999-01-01").expect("read").is_empty());
    assert!(read_entry(&conn, "").expect("read").is_empty());
}

#[test]
fn update_then_read_gives_the_new_measurements() {
    let conn = setup_in_memory_db();
    create_entry(&conn, &["2022-01-17", "20.0", "40.0", "0.0", "0.0", "0.0", "5.0"])
        .expect("create");
    update_entry(&conn, "2022-01-17", &["65.0", "90.0", "0.1", "0.0", "0.0", "10.0"])
        .expect("update");
    let rows = read_entry(&conn, "2022-01-17").expect("read");
    assert_eq!(rows.len(), 1);
    assert_eq!(real_of(&rows[0].temperature_minimum), 65.0);
    assert_eq!(measurements(&rows[0]), [65.0, 90.0, 0.1, 0.0, 0.0, 10.0]);
}

#[test]
fn update_changes_every_row_of_the_date_and_no_other() {
    let conn = setup_in_memory_db();
    create_entry(&conn, &["2022-01-17", "20.0", "40.0", "0.0", "0.0", "0.0", "5.0"])
        .expect("create");
    create_entry(&conn, &["2022-01-18", "21.0", "41.0", "0.5", "0.0", "0.0", "6.0"])
        .expect("create");
    create_entry(&conn, &["2022-01-17", "22.0", "42.0", "0.0", "1.0", "2.0", "7.0"])
        .expect("create");
    update_entry(&conn, "2022-01-17", &["65.0", "90.0", "0.1", "0.0", "0.0", "10.0"])
        .expect("update");
    assert_eq!(
        all_rows(&conn),
        vec![
            ("2022-01-17".to_string(), 65.0, 90.0, 0.1, 0.0, 0.0, 10.0),
            ("2022-01-18".to_string(), 21.0, 41.0, 0.5, 0.0, 0.0, 6.0),
            ("2022-01-17".to_string(), 65.0, 90.0, 0.1, 0.0, 0.0, 10.0),
        ]
    );
}

#[test]
fn delete_twice_is_no_error() {
    let conn = setup_in_memory_db();
    create_entry(&conn, &["2022-01-26", "15.0", "30.0", "0.0", "0.0", "0.0", "4.0"])
        .expect("create");
    create_entry(&conn, &["2022-01-27", "16.0", "31.0", "0.0", "0.0", "0.0", "4.5"])
        .expect("create");
    delete_entry(&conn, "2022-01-26").expect("first delete");
    assert!(read_entry(&conn, "2022-01-26").expect("read").is_empty());
    assert_eq!(count(&conn), 1);
    delete_entry(&conn, "2022-01-26").expect("second delete");
    assert!(read_entry(&conn, "2022-01-26").expect("read").is_empty());
    assert_eq!(
        all_rows(&conn),
        vec![("2022-01-27".to_string(), 16.0, 31.0, 0.0, 0.0, 0.0, 4.5)]
    );
}

#[test]
fn update_and_delete_without_a_match_change_nothing() {
    let conn = setup_in_memory_db();
    create_entry(&conn, &["2022-01-26", "15.0", "30.0", "0.0", "0.0", "0.0", "4.0"])
        .expect("create");
    let before = all_rows(&conn);
    update_entry(&conn, "1999-01-01", &["65.0", "90.0", "0.1", "0.0", "0.0", "10.0"])
        .expect("update");
    assert_eq!(all_rows(&conn), before);
    delete_entry(&conn, "1999-01-01").expect("delete");
    assert_eq!(all_rows(&conn), before);
}

#[test]
fn update_and_delete_on_an_empty_table_succeed() {
    let conn = setup_in_memory_db();
    update_entry(&conn, "2022-01-26", &["1.0", "2.0", "3.0", "4.0", "5.0", "6.0"]).expect("update");
    delete_entry(&conn, "2022-01-26").expect("delete");
    assert_eq!(count(&conn), 0);
}

#[test]
fn two_creates_of_one_date_give_two_rows() {
    let conn = setup_in_memory_db();
    create_entry(&conn, &["2023-01-01", "1.0", "5.0", "0.0", "0.0", "0.0", "3.0"]).expect("create");
    create_entry(&conn, &["2023-01-01", "2.0", "6.0", "0.1", "0.0", "0.1", "4.0"]).expect("create");
    assert_eq!(count(&conn), 2);
    let rows = read_entry(&conn, "2023-01-01").expect("read");
    assert_eq!(rows.len(), 2);
    assert_eq!(rows[0].date, "2023-01-01");
    assert_eq!(rows[1].date, "2023-01-01");
    assert_eq!(measurements(&rows[0]), [1.0, 5.0, 0.0, 0.0, 0.0, 3.0]);
    assert_eq!(measurements(&rows[1]), [2.0, 6.0, 0.1, 0.0, 0.1, 4.0]);
}

#[test]
fn delete_removes_every_row_of_the_date() {
    let conn = setup_in_memory_db();
    create_entry(&conn, &["2023-01-01", "1.0", "5.0", "0.0", "0.0", "0.0", "3.0"]).expect("create");
    create_entry(&conn, &["2023-01-02", "9.0", "9.5", "0.0", "0.0", "0.0", "1.0"]).expect("create");
    create_entry(&conn, &["2023-01-01", "2.0", "6.0", "0.1", "0.0", "0.1", "4.0"]).expect("create");
    delete_entry(&conn, "2023-01-01").expect("delete");
    assert_eq!(
        all_rows(&conn),
        vec![("2023-01-02".to_string(), 9.0, 9.5, 0.0, 0.0, 0.0, 1.0)]
    );
}

#[test]
fn parameters_are_bound_not_spliced() {
    let conn = setup_in_memory_db();
    let date = "x'; DROP TABLE WeatherDB; --";
    create_entry(&conn, &[date, "1.0", "2.0", "3.0", "4.0", "5.0", "6.0"]).expect("create");
    let rows = read_entry(&conn, date).expect("read");
    assert_eq!(rows.len(), 1);
    assert_eq!(rows[0].date, date);
    delete_entry(&conn, date).expect("delete");
    assert_eq!(count(&conn), 0);
}

#[test]
fn an_operation_without_the_table_is_an_engine_error() {
    let conn = Connection::open_in_memory().expect("open");
    let data = ["2023-01-01", "1.0", "5.0", "0.0", "0.0", "0.0", "3.0"];
    assert!(matches!(create_entry(&conn, &data), Err(DbError::Engine(_))));
    assert!(matches!(read_entry(&conn, "2023-01-01"), Err(DbError::Engine(_))));
    assert!(matches!(
        update_entry(&conn, "2023-01-01", &data[1..]),
        Err(DbError::Engine(_))
    ));
    assert!(matches!(delete_entry(&conn, "2023-01-01"), Err(DbError::Engine(_))));
    let message = create_entry(&conn, &data).unwrap_err().message();
    assert!(message.contains("WeatherDB"), "{}", message);
}

#[test]
fn a_measurement_that_is_no_number_cannot_be_read() {
    let conn = setup_in_memory_db();
    create_entry(&conn, &["2023-01-01", "1.0", "5.0", "n/a", "0.0", "0.0", "3.0"]).expect("create");
    match read_entry(&conn, "2023-01-01") {
        Err(DbError::ColumnType { column }) => assert_eq!(column, 3),
        other => panic!("unexpected: {:?}", other),
    }
    let message = read_entry(&conn, "2023-01-01").unwrap_err().message();
    assert!(!message.is_empty());
}

#[test]
fn the_first_unreadable_column_of_the_first_unreadable_row_decides() {
    let conn = setup_in_memory_db();
    create_entry(&conn, &["2023-01-01", "1.0", "5.0", "0.0", "0.0", "0.0", "3.0"]).expect("create");
    create_entry(&conn, &["2023-01-01", "1.0", "5.0", "0.0", "0.0", "bad", "worse"])
        .expect("create");
    create_entry(&conn, &["2023-01-01", "bad", "5.0", "0.0", "0.0", "0.0", "3.0"]).expect("create");
    match read_entry(&conn, "2023-01-01") {
        Err(DbError::ColumnType { column }) => assert_eq!(column, 5),
        other => panic!("unexpected: {:?}", other),
    }
}

#[test]
fn an_integer_measurement_is_read_as_it_is() {
    let conn = Connection::open_in_memory().expect("open");
    conn.execute(
        "CREATE TABLE WeatherDB (Date TEXT, a, b, c, d, e, f)",
        [],
    )
    .expect("create table");
    conn.execute(
        "INSERT INTO WeatherDB VALUES ('2023-01-01', 1, 2.5, -3, 4, 5, 6)",
        [],
    )
    .expect("insert");
    let rows = read_entry(&conn, "2023-01-01").expect("read");
    assert_eq!(rows.len(), 1);
    assert_eq!(rows[0].temperature_minimum, SqlValue::Integer(1));
    assert_eq!(rows[0].temperature_maximum, SqlValue::Real(Value::Real(2.5)));
    assert_eq!(rows[0].precipitation, SqlValue::Integer(-3));
}

#[test]
fn a_date_column_that_holds_no_text_is_a_column_type_error() {
    let conn = Connection::open_in_memory().expect("open");
    conn.execute(
        "CREATE TABLE WeatherDB (Date INTEGER, a REAL, b REAL, c REAL, d REAL, e REAL, f REAL)",
        [],
    )
    .expect("create table");
    conn.execute(
        "INSERT INTO WeatherDB VALUES (20230101, 1.0, 2.0, 3.0, 4.0, 5.0, 6.0)",
        [],
    )
    .expect("insert");
    match read_entry(&conn, "20230101") {
        Err(DbError::ColumnType { column }) => assert_eq!(column, 0),
        other => panic!("unexpected: {:?}", other),
    }
}

#[test]
fn what_a_column_gave_decides_the_field() {
    assert_eq!(
        date_of(Ok(SqlValue::Text("2023-01-01".to_string()))).expect("date"),
        "2023-01-01"
    );
    assert!(matches!(
        date_of(Ok(SqlValue::Null)),
        Err(DbError::ColumnType { column: 0 })
    ));
    assert!(matches!(
        date_of(Err(rusqlite::Error::InvalidColumnIndex(0))),
        Err(DbError::Engine(rusqlite::Error::InvalidColumnIndex(0)))
    ));
    assert_eq!(
        measurement_of(Ok(SqlValue::Real(Value::Real(3.8))), 6).expect("real"),
        SqlValue::Real(Value::Real(3.8))
    );
    assert_eq!(
        measurement_of(Ok(SqlValue::Integer(4)), 2).expect("integer"),
        SqlValue::Integer(4)
    );
    assert!(matches!(
        measurement_of(Ok(SqlValue::Text("4".to_string())), 2),
        Err(DbError::ColumnType { column: 2 })
    ));
    assert!(matches!(
        measurement_of(Ok(SqlValue::Null), 5),
        Err(DbError::ColumnType { column: 5 })
    ));
    assert!(matches!(
        measurement_of(Ok(SqlValue::Blob(vec![1])), 1),
        Err(DbError::ColumnType { column: 1 })
    ));
    assert!(matches!(
        measurement_of(Err(rusqlite::Error::InvalidColumnIndex(6)), 6),
        Err(DbError::Engine(rusqlite::Error::InvalidColumnIndex(6)))
    ));
}

#[test]
fn the_rows_of_a_query_or_its_first_error() {
    let row = |date: &str| {
        Observation::from_parsed(date, Some(Value::Real(1.0)), None, None, None, None, None)
    };
    let rows = gather(vec![Ok(row("a")), Ok(row("b"))]).expect("rows");
    assert_eq!(rows, vec![row("a"), row("b")]);
    assert_eq!(gather(Vec::new()).expect("rows"), Vec::new());
    assert!(matches!(
        gather(vec![
            Ok(row("a")),
            Err(DbError::ColumnType { column: 2 }),
            Ok(row("b")),
            Err(DbError::ColumnType { column: 4 }),
        ]),
        Err(DbError::ColumnType { column: 2 })
    ));
    assert!(matches!(
        settle_rows(Err(rusqlite::Error::InvalidQuery)),
        Err(DbError::Engine(rusqlite::Error::InvalidQuery))
    ));
    assert_eq!(
        settle_rows(Ok(vec![Ok(row("c"))])).expect("rows"),
        vec![row("c")]
    );
    assert!(settle(Ok(0)).is_ok());
    assert!(settle(Ok(3)).is_ok());
    assert!(matches!(
        settle(Err(rusqlite::Error::InvalidQuery)),
        Err(DbError::Engine(rusqlite::Error::InvalidQuery))
    ));
}

#[test]
fn the_parameters_of_each_statement() {
    let text = |s: &str| SqlValue::Text(s.to_string());
    assert_eq!(
        create_params(&["d", "1", "2", "3", "4", "5", "6", "7"]),
        vec![text("d"), text("1"), text("2"), text("3"), text("4"), text("5"), text("6")]
    );
    assert_eq!(
        update_params("d", &["1", "2", "3", "4", "5", "6", "7"]),
        vec![text("1"), text("2"), text("3"), text("4"), text("5"), text("6"), text("d")]
    );
    assert_eq!(date_params("2023-01-01"), vec![text("2023-01-01")]);
    let row = Observation::from_parsed(
        "2023-01-01",
        Some(Value::Real(1.5)),
        None,
        Some(Value::Real(-2.0)),
        None,
        None,
        Some(Value::Real(0.25)),
    );
    assert_eq!(
        row.to_params(),
        vec![
            text("2023-01-01"),
            SqlValue::Real(Value::Real(1.5)),
            SqlValue::Integer(0),
            SqlValue::Real(Value::Real(-2.0)),
            SqlValue::Integer(0),
            SqlValue::Integer(0),
            SqlValue::Real(Value::Real(0.25)),
        ]
    );
}

#[test]
fn a_table_with_too_few_columns_is_an_engine_error() {
    let conn = Connection::open_in_memory().expect("open");
    conn.execute("CREATE TABLE WeatherDB (Date TEXT, a REAL)", [])
        .expect("create table");
    conn.execute("INSERT INTO WeatherDB VALUES ('2023-01-01', 1.0)", [])
        .expect("insert");
    assert!(matches!(read_entry(&conn, "2023-01-01"), Err(DbError::Engine(_))));
}

#[test]
fn values_copy_and_compare() {
    let values = vec![
        SqlValue::Null,
        SqlValue::Integer(-7),
        SqlValue::Real(Value::Real(2.5)),
        SqlValue::Text("2023-01-01".to_string()),
        SqlValue::Blob(vec![1, 2, 3]),
    ];
    for v in values.iter() {
        assert_eq!(&v.duplicate(), v);
    }
    assert!(!values[0].is_numeric());
    assert!(values[1].is_numeric());
    assert!(values[2].is_numeric());
    assert!(!values[3].is_numeric());
    assert!(!values[4].is_numeric());
    assert_eq!(SqlValue::text("abc"), SqlValue::Text("abc".to_string()));
    assert_eq!(
        SqlValue::measurement_or_zero(Some(Value::Real(1.25))),
        SqlValue::Real(Value::Real(1.25))
    );
    assert_eq!(SqlValue::measurement_or_zero(None), SqlValue::Integer(0));
}

#[test]
fn seven_readings_make_a_row_each_in_its_place() {
    let row = observation_of(
        Ok(SqlValue::Text("2024-10-04".to_string())),
        Ok(SqlValue::Real(Value::Real(60.0))),
        Ok(SqlValue::Real(Value::Real(85.0))),
        Ok(SqlValue::Real(Value::Real(0.2))),
        Ok(SqlValue::Integer(4)),
        Ok(SqlValue::Real(Value::Real(5.5))),
        Ok(SqlValue::Real(Value::Real(12.5))),
    )
    .expect("row");
    assert_eq!(
        row,
        Observation {
            date: "2024-10-04".to_string(),
            temperature_minimum: SqlValue::Real(Value::Real(60.0)),
            temperature_maximum: SqlValue::Real(Value::Real(85.0)),
            precipitation: SqlValue::Real(Value::Real(0.2)),
            snowfall: SqlValue::Integer(4),
            snow_depth: SqlValue::Real(Value::Real(5.5)),
            average_wind_speed: SqlValue::Real(Value::Real(12.5)),
        }
    );
}

#[test]
fn the_first_reading_that_fails_decides_the_error() {
    let good = || Ok(SqlValue::Real(Value::Real(1.0)));
    let date = || Ok(SqlValue::Text("d".to_string()));
    assert!(matches!(
        observation_of(
            Ok(SqlValue::Integer(1)),
            Err(rusqlite::Error::InvalidColumnIndex(1)),
            good(),
            good(),
            good(),
            good(),
            good()
        ),
        Err(DbError::ColumnType { column: 0 })
    ));
    assert!(matches!(
        observation_of(
            date(),
            good(),
            Err(rusqlite::Error::InvalidColumnIndex(2)),
            Ok(SqlValue::Null),
            good(),
            good(),
            good()
        ),
        Err(DbError::Engine(rusqlite::Error::InvalidColumnIndex(2)))
    ));
    assert!(matches!(
        observation_of(
            date(),
            good(),
            good(),
            Ok(SqlValue::Text("x".to_string())),
            good(),
            Ok(SqlValue::Null),
            Err(rusqlite::Error::InvalidColumnIndex(6))
        ),
        Err(DbError::ColumnType { column: 3 })
    ));
    assert!(matches!(
        observation_of(
            date(),
            good(),
            good(),
            good(),
            good(),
            good(),
            Ok(SqlValue::Blob(vec![0]))
        ),
        Err(DbError::ColumnType { column: 6 })
    ));
    assert!(matches!(
        observation_of(
            Err(rusqlite::Error::InvalidColumnIndex(0)),
            good(),
            good(),
            good(),
            good(),
            good(),
            good()
        ),
        Err(DbError::Engine(rusqlite::Error::InvalidColumnIndex(0)))
    ));
}
