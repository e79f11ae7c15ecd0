//! Creating, reading, updating and deleting observations by date.
//!
//! Each operation is one statement with bound parameters. A date names
//! every row that holds it: the table has no key.

use vstd::prelude::*;
use crate::engine::{column, query, run};
use crate::error::DbError;
use crate::record::Observation;
use crate::schema::{DELETE_BY_DATE, INSERT_ROW, SELECT_BY_DATE, UPDATE_BY_DATE};
use crate::value::{views, SqlValue, SqlValueView};

verus! {

/// The parameters of an insert of text fields: the first seven, in order.
pub open spec fn create_columns(data: Seq<&str>) -> Seq<SqlValueView> {
    Seq::new(7, |i: int| SqlValueView::Text(data[i]@))
}

/// The parameters of an update: the first six fields, then the date.
pub open spec fn update_columns(date: Seq<char>, new_data: Seq<&str>) -> Seq<SqlValueView> {
    Seq::new(
        7,
        |i: int|
            if i < 6 {
                SqlValueView::Text(new_data[i]@)
            } else {
                SqlValueView::Text(date)
            },
    )
}

/// The parameters of [`create_entry`]: the first seven fields as text, in
/// the order of the columns.
pub fn create_params(data: &[&str]) -> (out: Vec<SqlValue>)
    requires
        data@.len() >= 7,
    ensures
        views(out@) == create_columns(data@),
{
    let mut out: Vec<SqlValue> = Vec::new();
    let mut i: usize = 0;
    while i < 7
        invariant
            i <= 7,
            data@.len() >= 7,
            out.len() == i,
            forall|j: int| 0 <= j < i ==> (#[trigger] out[j])@ == SqlValueView::Text(data@[j]@),
        decreases 7 - i,
    {
        out.push(SqlValue::text(data[i]));
        i += 1;
    }
    assert(views(out@) =~= create_columns(data@));
    out
}

/// The parameters of [`update_entry`]: the first six fields as text, then
/// the date.
pub fn update_params(date: &str, new_data: &[&str]) -> (out: Vec<SqlValue>)
    requires
        new_data@.len() >= 6,
    ensures
        views(out@) == update_columns(date@, new_data@),
{
    let mut out: Vec<SqlValue> = Vec::new();
    let mut i: usize = 0;
    while i < 6
        invariant
            i <= 6,
            new_data@.len() >= 6,
            out.len() == i,
            forall|j: int|
                0 <= j < i ==> (#[trigger] out[j])@ == SqlValueView::Text(new_data@[j]@),
        decreases 6 - i,
    {
        out.push(SqlValue::text(new_data[i]));
        i += 1;
    }
    out.push(SqlValue::text(date));
    assert(views(out@) =~= update_columns(date@, new_data@));
    out
}

/// The parameters of a statement that names rows by date: the date.
pub fn date_params(date: &str) -> (out: Vec<SqlValue>)
    ensures
        views(out@) == seq![SqlValueView::Text(date@)],
{
    let mut out: Vec<SqlValue> = Vec::new();
    out.push(SqlValue::text(date));
    assert(views(out@) =~= seq![SqlValueView::Text(date@)]);
    out
}

/// What a statement that returns no rows leaves its caller with: success
/// whatever the number of rows it changed, or the engine's error.
pub fn settle(answer: Result<usize, rusqlite::Error>) -> (out: Result<(), DbError>)
    ensures
        out == match answer {
            Ok(_) => Ok::<(), DbError>(()),
            Err(e) => Err(DbError::Engine(e)),
        },
{
    match answer {
        Ok(_) => Ok(()),
        Err(e) => Err(DbError::Engine(e)),
    }
}

/// Inserts one row whose seven columns are the first seven fields of
/// `data`, bound as text as they stand. A date that is already there gets
/// another row.
pub fn create_entry(conn: &rusqlite::Connection, data: &[&str]) -> (out: Result<(), DbError>)
    requires
        data@.len() >= 7,
    ensures
        out matches Err(e) ==> e is Engine,
{
    let params = create_params(data);
    settle(run(conn, INSERT_ROW, &params))
}

/// Sets the six measurements of every row of the date to the first six
/// fields of `new_data`, bound as text. No such row is no error.
pub fn update_entry(conn: &rusqlite::Connection, date: &str, new_data: &[&str]) -> (out: Result<
    (),
    DbError,
>)
    requires
        new_data@.len() >= 6,
    ensures
        out matches Err(e) ==> e is Engine,
{
    let params = update_params(date, new_data);
    settle(run(conn, UPDATE_BY_DATE, &params))
}

/// Removes every row of the date. No such row is no error.
pub fn delete_entry(conn: &rusqlite::Connection, date: &str) -> (out: Result<(), DbError>)
    ensures
        out matches Err(e) ==> e is Engine,
{
    let params = date_params(date);
    settle(run(conn, DELETE_BY_DATE, &params))
}

/// The date of a row from what reading its first column gave: the text, or
/// the error that says why there is none.
pub open spec fn date_from(fetched: Result<SqlValue, rusqlite::Error>) -> Result<String, DbError> {
    match fetched {
        Ok(SqlValue::Text(s)) => Ok(s),
        Ok(_) => Err(DbError::ColumnType { column: 0 }),
        Err(e) => Err(DbError::Engine(e)),
    }
}

/// A measurement of a row from what reading the column gave: the value
/// where it is an integer or a real, or the error that says why there is
/// none.
pub open spec fn measurement_from(
    fetched: Result<SqlValue, rusqlite::Error>,
    column: usize,
) -> Result<SqlValue, DbError> {
    match fetched {
        Ok(v) => if v@.is_numeric() {
            Ok(v)
        } else {
            Err(DbError::ColumnType { column })
        },
        Err(e) => Err(DbError::Engine(e)),
    }
}

/// The row that seven column readings make, taken in the order of the
/// columns: the error of the first column that gives none of what its
/// place asks for, or else the row whose date is the first reading and
/// whose measurements are the six others, each in its own place.
pub open spec fn observation_from(
    c0: Result<SqlValue, rusqlite::Error>,
    c1: Result<SqlValue, rusqlite::Error>,
    c2: Result<SqlValue, rusqlite::Error>,
    c3: Result<SqlValue, rusqlite::Error>,
    c4: Result<SqlValue, rusqlite::Error>,
    c5: Result<SqlValue, rusqlite::Error>,
    c6: Result<SqlValue, rusqlite::Error>,
) -> Result<Observation, DbError> {
    if date_from(c0) is Err {
        Err(date_from(c0)->Err_0)
    } else if measurement_from(c1, 1) is Err {
        Err(measurement_from(c1, 1)->Err_0)
    } else if measurement_from(c2, 2) is Err {
        Err(measurement_from(c2, 2)->Err_0)
    } else if measurement_from(c3, 3) is Err {
        Err(measurement_from(c3, 3)->Err_0)
    } else if measurement_from(c4, 4) is Err {
        Err(measurement_from(c4, 4)->Err_0)
    } else if measurement_from(c5, 5) is Err {
        Err(measurement_from(c5, 5)->Err_0)
    } else if measurement_from(c6, 6) is Err {
        Err(measurement_from(c6, 6)->Err_0)
    } else {
        Ok(
            Observation {
                date: date_from(c0)->Ok_0,
                temperature_minimum: measurement_from(c1, 1)->Ok_0,
                temperature_maximum: measurement_from(c2, 2)->Ok_0,
                precipitation: measurement_from(c3, 3)->Ok_0,
                snowfall: measurement_from(c4, 4)->Ok_0,
                snow_depth: measurement_from(c5, 5)->Ok_0,
                average_wind_speed: measurement_from(c6, 6)->Ok_0,
            },
        )
    }
}

/// A row is made exactly where the first reading is a text and the six
/// others are integers or reals; the row then holds each reading in its
/// own place, unchanged, and its measurements are numeric.
pub proof fn lemma_observation_from(
    c0: Result<SqlValue, rusqlite::Error>,
    c1: Result<SqlValue, rusqlite::Error>,
    c2: Result<SqlValue, rusqlite::Error>,
    c3: Result<SqlValue, rusqlite::Error>,
    c4: Result<SqlValue, rusqlite::Error>,
    c5: Result<SqlValue, rusqlite::Error>,
    c6: Result<SqlValue, rusqlite::Error>,
)
    ensures
        observation_from(c0, c1, c2, c3, c4, c5, c6) is Ok <==> {
            &&& c0 matches Ok(SqlValue::Text(_))
            &&& c1 matches Ok(v) && v@.is_numeric()
            &&& c2 matches Ok(v) && v@.is_numeric()
            &&& c3 matches Ok(v) && v@.is_numeric()
            &&& c4 matches Ok(v) && v@.is_numeric()
            &&& c5 matches Ok(v) && v@.is_numeric()
            &&& c6 matches Ok(v) && v@.is_numeric()
        },
        observation_from(c0, c1, c2, c3, c4, c5, c6) matches Ok(o) ==> {
            &&& c0 == Ok::<SqlValue, rusqlite::Error>(SqlValue::Text(o.date))
            &&& c1 == Ok::<SqlValue, rusqlite::Error>(o.temperature_minimum)
            &&& c2 == Ok::<SqlValue, rusqlite::Error>(o.temperature_maximum)
            &&& c3 == Ok::<SqlValue, rusqlite::Error>(o.precipitation)
            &&& c4 == Ok::<SqlValue, rusqlite::Error>(o.snowfall)
            &&& c5 == Ok::<SqlValue, rusqlite::Error>(o.snow_depth)
            &&& c6 == Ok::<SqlValue, rusqlite::Error>(o.average_wind_speed)
            &&& o.is_numeric()
        },
{
}

/// The date of a row from what reading its first column gave: the text, or
/// the error that says why there is none.
pub fn date_of(fetched: Result<SqlValue, rusqlite::Error>) -> (out: Result<String, DbError>)
    ensures
        out == date_from(fetched),
{
    match fetched {
        Ok(SqlValue::Text(s)) => Ok(s),
        Ok(_) => Err(DbError::ColumnType { column: 0 }),
        Err(e) => Err(DbError::Engine(e)),
    }
}

/// A measurement of a row from what reading the column gave: the value
/// where it is an integer or a real, or the error that says why there is
/// none.
pub fn measurement_of(fetched: Result<SqlValue, rusqlite::Error>, column: usize) -> (out: Result<
    SqlValue,
    DbError,
>)
    ensures
        out == measurement_from(fetched, column),
{
    match fetched {
        Ok(v) => if v.is_numeric() {
            Ok(v)
        } else {
            Err(DbError::ColumnType { column })
        },
        Err(e) => Err(DbError::Engine(e)),
    }
}

/// The row that seven column readings make: the first is the date, the
/// six others are the measurements in the order of the columns. The first
/// reading, in that order, that gives none of what its place asks for
/// decides the error.
pub fn observation_of(
    c0: Result<SqlValue, rusqlite::Error>,
    c1: Result<SqlValue, rusqlite::Error>,
    c2: Result<SqlValue, rusqlite::Error>,
    c3: Result<SqlValue, rusqlite::Error>,
    c4: Result<SqlValue, rusqlite::Error>,
    c5: Result<SqlValue, rusqlite::Error>,
    c6: Result<SqlValue, rusqlite::Error>,
) -> (out: Result<Observation, DbError>)
    ensures
        out == observation_from(c0, c1, c2, c3, c4, c5, c6),
{
    let date = match date_of(c0) {
        Ok(s) => s,
        Err(e) => { return Err(e); },
    };
    let temperature_minimum = match measurement_of(c1, 1) {
        Ok(v) => v,
        Err(e) => { return Err(e); },
    };
    let temperature_maximum = match measurement_of(c2, 2) {
        Ok(v) => v,
        Err(e) => { return Err(e); },
    };
    let precipitation = match measurement_of(c3, 3) {
        Ok(v) => v,
        Err(e) => { return Err(e); },
    };
    let snowfall = match measurement_of(c4, 4) {
        Ok(v) => v,
        Err(e) => { return Err(e); },
    };
    let snow_depth = match measurement_of(c5, 5) {
        Ok(v) => v,
        Err(e) => { return Err(e); },
    };
    let average_wind_speed = match measurement_of(c6, 6) {
        Ok(v) => v,
        Err(e) => { return Err(e); },
    };
    Ok(
        Observation {
            date,
            temperature_minimum,
            temperature_maximum,
            precipitation,
            snowfall,
            snow_depth,
            average_wind_speed,
        },
    )
}

/// Reads the seven columns of a row, from first to last, and makes the row
/// of them.
pub(crate) fn decode_row(row: &rusqlite::Row<'_>) -> (out: Result<Observation, DbError>)
    ensures
        out matches Ok(o) ==> o.is_numeric(),
{
    let c0 = column(row, 0);
    let c1 = column(row, 1);
    let c2 = column(row, 2);
    let c3 = column(row, 3);
    let c4 = column(row, 4);
    let c5 = column(row, 5);
    let c6 = column(row, 6);
    proof {
        lemma_observation_from(c0, c1, c2, c3, c4, c5, c6);
    }
    observation_of(c0, c1, c2, c3, c4, c5, c6)
}

/// The first error of a sequence of results, if it has one.
pub open spec fn first_error(items: Seq<Result<Observation, DbError>>) -> Option<DbError>
    decreases items.len(),
{
    if items.len() == 0 {
        None
    } else {
        match items[0] {
            Err(e) => Some(e),
            Ok(_) => first_error(items.skip(1)),
        }
    }
}

/// The observations of a sequence of results that holds no error.
pub open spec fn all_rows(items: Seq<Result<Observation, DbError>>) -> Seq<Observation> {
    Seq::new(items.len(), |i: int| items[i]->Ok_0)
}

/// A sequence of results has no first error exactly when each of them is a
/// row, and a first error is one of its errors.
pub proof fn lemma_first_error(items: Seq<Result<Observation, DbError>>)
    ensures
        first_error(items) is None <==> forall|i: int|
            0 <= i < items.len() ==> #[trigger] items[i] is Ok,
        first_error(items) matches Some(e) ==> exists|i: int|
            0 <= i < items.len() && #[trigger] items[i] == Err::<Observation, DbError>(e) && forall|
                j: int,
            |
                0 <= j < i ==> #[trigger] items[j] is Ok,
    decreases items.len(),
{
    if items.len() > 0 {
        let rest = items.skip(1);
        lemma_first_error(rest);
        assert(forall|i: int| 0 <= i < rest.len() ==> rest[i] == items[i + 1]);
        match items[0] {
            Err(e) => {
                assert(items[0] == Err::<Observation, DbError>(e));
            },
            Ok(_) => {
                if first_error(rest) is None {
                    assert forall|i: int| 0 <= i < items.len() implies #[trigger] items[i] is Ok by {
                        if i > 0 {
                            assert(rest[i - 1] is Ok);
                        }
                    }
                } else {
                    let e = first_error(rest)->Some_0;
                    let i = choose|i: int|
                        0 <= i < rest.len() && #[trigger] rest[i] == Err::<Observation, DbError>(e)
                            && forall|j: int| 0 <= j < i ==> #[trigger] rest[j] is Ok;
                    assert(items[i + 1] == Err::<Observation, DbError>(e));
                    assert forall|j: int| 0 <= j < i + 1 implies #[trigger] items[j] is Ok by {
                        if j > 0 {
                            assert(rest[j - 1] is Ok);
                        }
                    }
                    assert(!(items[i + 1] is Ok));
                }
            },
        }
    }
}

/// The rows of a query, or the error of the first row that could not be
/// read.
pub fn gather(items: Vec<Result<Observation, DbError>>) -> (out: Result<Vec<Observation>, DbError>)
    ensures
        match first_error(items@) {
            Some(e) => out == Err::<Vec<Observation>, DbError>(e),
            None => out matches Ok(rows) && rows@ == all_rows(items@),
        },
{
    let ghost all = items@;
    let mut items = items;
    let mut reversed: Vec<Observation> = Vec::new();
    let mut failure: Option<DbError> = None;
    while items.len() > 0
        invariant
            items@ == all.take(items.len() as int),
            items.len() <= all.len(),
            failure == first_error(all.skip(items.len() as int)),
            failure is None ==> reversed.len() == all.len() - items.len(),
            failure is None ==> forall|j: int|
                0 <= j < reversed.len() ==> (#[trigger] all[all.len() - 1 - j]) == Ok::<
                    Observation,
                    DbError,
                >(reversed[j]),
        decreases items.len(),
    {
        let ghost k = items.len() - 1;
        let item = items.pop();
        proof {
            assert(all.skip(k).skip(1) =~= all.skip(k + 1));
            assert(all.skip(k)[0] == all[k]);
            assert(items@ =~= all.take(k));
        }
        match item {
            Some(Ok(o)) => {
                if failure.is_none() {
                    reversed.push(o);
                }
            },
            Some(Err(e)) => {
                failure = Some(e);
            },
            None => {},
        }
    }
    assert(all.skip(0) =~= all);
    match failure {
        Some(e) => Err(e),
        None => {
            let mut rows: Vec<Observation> = Vec::new();
            let ghost rev = reversed@;
            while reversed.len() > 0
                invariant
                    reversed@ == rev.take(reversed.len() as int),
                    reversed.len() <= rev.len(),
                    rev.len() == all.len(),
                    rows.len() == rev.len() - reversed.len(),
                    forall|j: int| 0 <= j < rev.len() ==> (#[trigger] all[all.len() - 1 - j]) == Ok::<
                        Observation,
                        DbError,
                    >(rev[j]),
                    forall|j: int| 0 <= j < rows.len() ==> (#[trigger] rows[j]) == all[j]->Ok_0,
                decreases reversed.len(),
            {
                let ghost k = reversed.len() - 1;
                let o = reversed.pop();
                match o {
                    Some(o) => {
                        assert(o == rev[k]);
                        assert(all[all.len() - 1 - k] == Ok::<Observation, DbError>(rev[k]));
                        rows.push(o);
                    },
                    None => {},
                }
                assert(reversed@ =~= rev.take(k));
            }
            assert(rows@ =~= all_rows(all));
            Ok(rows)
        },
    }
}

/// What a query leaves its caller with: the rows, or the engine's error,
/// or the error of the first row that could not be read.
pub fn settle_rows(answer: Result<Vec<Result<Observation, DbError>>, rusqlite::Error>) -> (out:
    Result<Vec<Observation>, DbError>)
    ensures
        match answer {
            Err(e) => out == Err::<Vec<Observation>, DbError>(DbError::Engine(e)),
            Ok(items) => match first_error(items@) {
                Some(e) => out == Err::<Vec<Observation>, DbError>(e),
                None => out matches Ok(rows) && rows@ == all_rows(items@),
            },
        },
{
    match answer {
        Err(e) => Err(DbError::Engine(e)),
        Ok(items) => gather(items),
    }
}

/// Every row whose date is exactly `date`, each with numeric
/// measurements. No such row gives an empty vector, not an error. What the
/// engine answers goes to [`settle_rows`], which decides the result.
pub fn read_entry(conn: &rusqlite::Connection, date: &str) -> (out: Result<
    Vec<Observation>,
    DbError,
>)
    ensures
        out matches Ok(rows) ==> forall|i: int|
            0 <= i < rows.len() ==> (#[trigger] rows[i]).is_numeric(),
{
    let params = date_params(date);
    let answer = query(conn, SELECT_BY_DATE, &params);
    proof {
        if answer is Ok {
            lemma_first_error(answer->Ok_0@);
        }
    }
    settle_rows(answer)
}

} // verus!
