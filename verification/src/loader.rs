//! From CSV text to a filled table.
//!
//! A load drops the table, creates it again and inserts one row for each
//! record of seven fields, in the order of the records. The first record is
//! the header and is not inserted. A record that the reader cannot parse,
//! or that has another number of fields, is left out and the load goes on.
//! A numeric field that is no number loads as zero.

use vstd::prelude::*;
use crate::engine::{bind, execute_prepared, prepare, run};
use crate::error::{DbError, LoadError};
use crate::record::{row_fields, Observation, TextRow};
use crate::schema::{CREATE_TABLE, DROP_TABLE, INSERT_ROW, TABLE};
use crate::value::{or_zero, SqlValue, SqlValueView};

verus! {

/// The records that the CSV reader of the `csv` crate finds in `data` after
/// the header, in order: the fields of each record that it could read,
/// `None` for each that it could not.
pub uninterp spec fn csv_records(data: Seq<u8>) -> Seq<Option<Seq<Seq<char>>>>;

/// `csv::Reader::from_reader(data).records()`, with the reader's default
/// settings: the first record is taken as the header and not handed out,
/// and a record with another number of fields than the first is an error.
/// Each item of the iterator becomes one item of the result: the fields of
/// a record, or `None` for an error.
#[verifier::external_body]
fn parse_records(data: &[u8]) -> (out: Vec<Option<Vec<String>>>)
    ensures
        out.deep_view() == csv_records(data@),
{
    let mut reader = csv::Reader::from_reader(data);
    reader.records().map(
        |item| item.ok().map(|record| record.iter().map(|field| field.to_string()).collect()),
    ).collect()
}

/// Whether a record becomes a row: it was read and has seven fields.
pub open spec fn loadable(record: Option<Seq<Seq<char>>>) -> bool {
    record matches Some(fields) && fields.len() == 7
}

/// The fields of the records that become rows, in the order of the
/// records.
pub open spec fn rows_of(records: Seq<Option<Seq<Seq<char>>>>) -> Seq<Seq<Seq<char>>>
    decreases records.len(),
{
    if records.len() == 0 {
        Seq::empty()
    } else if loadable(records.last()) {
        rows_of(records.drop_last()).push(records.last()->Some_0)
    } else {
        rows_of(records.drop_last())
    }
}

/// The places of the records that become no row, in rising order. Places
/// count from zero, the header not counted.
pub open spec fn skipped_of(records: Seq<Option<Seq<Seq<char>>>>) -> Seq<int>
    decreases records.len(),
{
    if records.len() == 0 {
        Seq::empty()
    } else if loadable(records.last()) {
        skipped_of(records.drop_last())
    } else {
        skipped_of(records.drop_last()).push(records.len() - 1)
    }
}

/// Every record either becomes a row or is left out, never both: the rows
/// and the records left out are as many as the records. The places left
/// out are places of records that are not loadable.
pub proof fn lemma_rows_and_skipped(records: Seq<Option<Seq<Seq<char>>>>)
    ensures
        rows_of(records).len() + skipped_of(records).len() == records.len(),
        forall|k: int|
            0 <= k < skipped_of(records).len() ==> 0 <= (#[trigger] skipped_of(records)[k])
                < records.len() && !loadable(records[skipped_of(records)[k]]),
    decreases records.len(),
{
    if records.len() > 0 {
        let before = records.drop_last();
        lemma_rows_and_skipped(before);
        assert(forall|i: int| 0 <= i < before.len() ==> before[i] == records[i]);
    }
}

/// Where every record was read and has seven fields, each becomes a row:
/// there are as many rows as records, and the rows are the records.
pub proof fn lemma_all_rows_kept(records: Seq<Option<Seq<Seq<char>>>>)
    requires
        forall|i: int| 0 <= i < records.len() ==> loadable(#[trigger] records[i]),
    ensures
        rows_of(records).len() == records.len(),
        forall|i: int| 0 <= i < records.len() ==> records[i] == Some(#[trigger] rows_of(records)[i]),
    decreases records.len(),
{
    if records.len() > 0 {
        let before = records.drop_last();
        assert(forall|i: int| 0 <= i < before.len() ==> before[i] == records[i]);
        lemma_all_rows_kept(before);
    }
}

/// Whether a record becomes a row depends on the number of its fields
/// alone, not on what they hold: two texts whose records agree in that give
/// the same number of rows.
pub proof fn lemma_rows_by_field_count(
    a: Seq<Option<Seq<Seq<char>>>>,
    b: Seq<Option<Seq<Seq<char>>>>,
)
    requires
        a.len() == b.len(),
        forall|i: int| 0 <= i < a.len() ==> loadable(#[trigger] a[i]) == loadable(b[i]),
    ensures
        rows_of(a).len() == rows_of(b).len(),
    decreases a.len(),
{
    if a.len() > 0 {
        assert(forall|i: int| 0 <= i < a.len() - 1 ==> a.drop_last()[i] == a[i]);
        assert(forall|i: int| 0 <= i < b.len() - 1 ==> b.drop_last()[i] == b[i]);
        assert(loadable(a[a.len() - 1]) == loadable(b[a.len() - 1]));
        lemma_rows_by_field_count(a.drop_last(), b.drop_last());
    }
}

/// The rows among the records of a CSV text: one for each record of seven
/// fields, in order, whatever the fields hold.
pub fn select_rows(records: &Vec<Option<Vec<String>>>) -> (out: Vec<TextRow>)
    ensures
        row_fields(out@) == rows_of(records.deep_view()),
{
    let ghost all = records.deep_view();
    let mut out: Vec<TextRow> = Vec::new();
    let mut i: usize = 0;
    assert(all.take(0) =~= Seq::empty());
    while i < records.len()
        invariant
            i <= records.len(),
            all == records.deep_view(),
            all.len() == records.len(),
            row_fields(out@) == rows_of(all.take(i as int)),
        decreases records.len() - i,
    {
        let ghost before = row_fields(out@);
        proof {
            assert(all.take(i + 1).drop_last() =~= all.take(i as int));
            assert(all.take(i + 1).last() == all[i as int]);
            assert(all[i as int] == records@[i as int].deep_view());
        }
        match &records[i] {
            Some(fields) => {
                if fields.len() == 7 {
                    let row = TextRow {
                        date: fields[0].clone(),
                        temperature_minimum: fields[1].clone(),
                        temperature_maximum: fields[2].clone(),
                        precipitation: fields[3].clone(),
                        snowfall: fields[4].clone(),
                        snow_depth: fields[5].clone(),
                        average_wind_speed: fields[6].clone(),
                    };
                    proof {
                        let dv = fields.deep_view();
                        assert(all[i as int] == Some(dv));
                        assert(dv.len() == 7);
                        assert(forall|j: int| 0 <= j < 7 ==> dv[j] == fields@[j]@);
                        assert(row.fields() =~= dv);
                    }
                    out.push(row);
                    proof {
                        assert(row_fields(out@) =~= before.push(row.fields()));
                    }
                } else {
                    proof {
                        assert(fields.deep_view().len() == fields.len());
                    }
                }
            },
            None => {},
        }
        i += 1;
    }
    assert(all.take(records.len() as int) =~= all);
    out
}

/// The places of the records that [`select_rows`] leaves out, in rising
/// order: those that could not be read and those with another number of
/// fields than seven.
pub fn skipped_rows(records: &Vec<Option<Vec<String>>>) -> (out: Vec<usize>)
    ensures
        out@.map_values(|k: usize| k as int) == skipped_of(records.deep_view()),
{
    let ghost all = records.deep_view();
    let mut out: Vec<usize> = Vec::new();
    let mut i: usize = 0;
    assert(all.take(0) =~= Seq::empty());
    assert(out@.map_values(|k: usize| k as int) =~= Seq::empty());
    while i < records.len()
        invariant
            i <= records.len(),
            all == records.deep_view(),
            all.len() == records.len(),
            out@.map_values(|k: usize| k as int) == skipped_of(all.take(i as int)),
        decreases records.len() - i,
    {
        let ghost before = out@.map_values(|k: usize| k as int);
        proof {
            assert(all.take(i + 1).drop_last() =~= all.take(i as int));
            assert(all.take(i + 1).last() == all[i as int]);
            assert(all[i as int] == records@[i as int].deep_view());
        }
        let keep = match &records[i] {
            Some(fields) => {
                proof {
                    assert(fields.deep_view().len() == fields.len());
                }
                fields.len() == 7
            },
            None => false,
        };
        if !keep {
            out.push(i);
            assert(out@.map_values(|k: usize| k as int) =~= before.push(i as int));
        }
        i += 1;
    }
    assert(all.take(records.len() as int) =~= all);
    out
}

/// The rows of a CSV text: one for each record of seven fields after the
/// header, in order.
pub fn read_rows(data: &[u8]) -> (out: Vec<TextRow>)
    ensures
        row_fields(out@) == rows_of(csv_records(data@)),
{
    let records = parse_records(data);
    select_rows(&records)
}

/// Whether `value` is what a numeric field of text `text` loads as under
/// the parser `parse_real`: the real that the parser made of the text, or
/// zero where it made none.
pub open spec fn loads_as<P: Fn(&str) -> Option<rusqlite::types::Value>>(
    parse_real: P,
    text: Seq<char>,
    value: SqlValueView,
) -> bool {
    exists|t: &str, parsed: Option<rusqlite::types::Value>|
        t@ == text && #[trigger] parse_real.ensures((t,), parsed) && value == or_zero(parsed)
}

/// The row of the table that a CSV row loads as. The date is kept as it
/// stands. Each of the six other fields goes to `parse_real`, which says
/// which real its text denotes, if any; a field that is no number loads as
/// zero, and the row is loaded all the same.
pub fn coerce<P: Fn(&str) -> Option<rusqlite::types::Value>>(row: &TextRow, parse_real: &P) -> (out:
    Observation)
    requires
        forall|t: &str| #[trigger] parse_real.requires((t,)),
    ensures
        out.date@ == row.date@,
        out.is_numeric(),
        forall|i: int|
            1 <= i < 7 ==> loads_as(*parse_real, row.fields()[i], #[trigger] out.columns()[i]),
{
    let temperature_minimum = parse_real(row.temperature_minimum.as_str());
    let temperature_maximum = parse_real(row.temperature_maximum.as_str());
    let precipitation = parse_real(row.precipitation.as_str());
    let snowfall = parse_real(row.snowfall.as_str());
    let snow_depth = parse_real(row.snow_depth.as_str());
    let average_wind_speed = parse_real(row.average_wind_speed.as_str());
    Observation::from_parsed(
        row.date.as_str(),
        temperature_minimum,
        temperature_maximum,
        precipitation,
        snowfall,
        snow_depth,
        average_wind_speed,
    )
}

/// The rows of the table that the rows of a CSV text load as: one for
/// each, in order.
pub fn coerce_rows<P: Fn(&str) -> Option<rusqlite::types::Value>>(
    rows: &Vec<TextRow>,
    parse_real: &P,
) -> (out: Vec<Observation>)
    requires
        forall|t: &str| #[trigger] parse_real.requires((t,)),
    ensures
        out.len() == rows.len(),
        forall|k: int|
            0 <= k < rows.len() ==> {
                &&& (#[trigger] out[k]).date@ == rows[k].date@
                &&& out[k].is_numeric()
                &&& forall|i: int|
                    1 <= i < 7 ==> loads_as(
                        *parse_real,
                        rows[k].fields()[i],
                        #[trigger] out[k].columns()[i],
                    )
            },
{
    let mut out: Vec<Observation> = Vec::new();
    let mut k: usize = 0;
    while k < rows.len()
        invariant
            k <= rows.len(),
            out.len() == k,
            forall|t: &str| #[trigger] parse_real.requires((t,)),
            forall|j: int|
                0 <= j < k ==> {
                    &&& (#[trigger] out[j]).date@ == rows[j].date@
                    &&& out[j].is_numeric()
                    &&& forall|i: int|
                        1 <= i < 7 ==> loads_as(
                            *parse_real,
                            rows[j].fields()[i],
                            #[trigger] out[j].columns()[i],
                        )
                },
        decreases rows.len() - k,
    {
        out.push(coerce(&rows[k], parse_real));
        k += 1;
    }
    out
}

/// The rows of the table that the records of a CSV text load as: one for
/// each record of seven fields, in the order of the records. The date of a
/// row is the first field as it stands. Each measurement is the real that
/// `parse_real` made of the field in its place, or zero where the field is
/// no number; such a record is a row all the same.
pub fn plan_rows<P: Fn(&str) -> Option<rusqlite::types::Value>>(
    records: &Vec<Option<Vec<String>>>,
    parse_real: &P,
) -> (out: Vec<Observation>)
    requires
        forall|t: &str| #[trigger] parse_real.requires((t,)),
    ensures
        out.len() == rows_of(records.deep_view()).len(),
        forall|k: int|
            0 <= k < out.len() ==> {
                &&& (#[trigger] out[k]).date@ == rows_of(records.deep_view())[k][0]
                &&& out[k].is_numeric()
                &&& forall|i: int|
                    1 <= i < 7 ==> loads_as(
                        *parse_real,
                        rows_of(records.deep_view())[k][i],
                        #[trigger] out[k].columns()[i],
                    )
            },
{
    let text_rows = select_rows(records);
    let out = coerce_rows(&text_rows, parse_real);
    proof {
        let fields = rows_of(records.deep_view());
        assert(row_fields(text_rows@).len() == text_rows.len());
        assert forall|k: int| 0 <= k < out.len() implies {
            &&& (#[trigger] out[k]).date@ == fields[k][0]
            &&& out[k].is_numeric()
            &&& forall|i: int|
                1 <= i < 7 ==> loads_as(*parse_real, fields[k][i], #[trigger] out[k].columns()[i])
        } by {
            assert(fields[k] == row_fields(text_rows@)[k]);
            assert(fields[k] == text_rows[k].fields());
            assert(text_rows[k].fields()[0] == text_rows[k].date@);
        }
    }
    out
}

/// What the statement that drops the table leaves a load with: the way on
/// to creating it, or the failure of the drop with the engine's error.
pub fn settle_drop(answer: Result<usize, rusqlite::Error>) -> (out: Result<(), LoadError>)
    ensures
        out == match answer {
            Ok(_) => Ok::<(), LoadError>(()),
            Err(e) => Err(LoadError::DropTable(DbError::Engine(e))),
        },
{
    match answer {
        Ok(_) => Ok(()),
        Err(e) => Err(LoadError::DropTable(DbError::Engine(e))),
    }
}

/// What the statement that creates the table leaves a load with: a fresh
/// table, or the failure of the creation with the engine's error.
pub fn settle_create(answer: Result<usize, rusqlite::Error>) -> (out: Result<(), LoadError>)
    ensures
        out == match answer {
            Ok(_) => Ok::<(), LoadError>(()),
            Err(e) => Err(LoadError::CreateTable(DbError::Engine(e))),
        },
{
    match answer {
        Ok(_) => Ok(()),
        Err(e) => Err(LoadError::CreateTable(DbError::Engine(e))),
    }
}

/// Drops the table if it is there and creates it anew, empty.
pub fn reset_table(conn: &rusqlite::Connection) -> (out: Result<(), LoadError>)
    ensures
        out matches Err(e) ==> e is DropTable || e is CreateTable,
{
    let none: Vec<SqlValue> = Vec::new();
    match settle_drop(run(conn, DROP_TABLE, &none)) {
        Err(e) => Err(e),
        Ok(_) => settle_create(run(conn, CREATE_TABLE, &none)),
    }
}

/// Inserts the rows in order through one prepared statement and stops at
/// the first that the engine refuses. `Ok` holds the number of rows
/// inserted, which is all of them.
pub fn insert_rows(conn: &rusqlite::Connection, rows: &Vec<Observation>) -> (out: Result<
    usize,
    LoadError,
>)
    ensures
        out matches Ok(n) ==> n == rows.len(),
        out matches Err(e) ==> e is Prepare || (e matches LoadError::Insert { row, .. } && row
            < rows.len()),
{
    match prepare(conn, INSERT_ROW) {
        Err(e) => Err(LoadError::Prepare(DbError::Engine(e))),
        Ok(mut stmt) => {
            let mut k: usize = 0;
            while k < rows.len()
                invariant
                    k <= rows.len(),
                decreases rows.len() - k,
            {
                let bound = bind(&rows[k].to_params());
                match execute_prepared(&mut stmt, &bound) {
                    Err(e) => {
                        return Err(LoadError::Insert { row: k, cause: DbError::Engine(e) });
                    },
                    Ok(_) => {},
                }
                k += 1;
            }
            Ok(k)
        },
    }
}

/// What a load did.
#[derive(Clone, Debug, PartialEq, Eq)]
pub struct LoadReport {
    /// The number of rows inserted.
    pub inserted: usize,
    /// The places of the records that were left out, in rising order,
    /// counted from zero after the header.
    pub skipped: Vec<usize>,
}

/// Reads the records of a CSV text and inserts the rows that [`plan_rows`]
/// makes of them into the table as it stands, each with the parameters of
/// [`Observation::to_params`]. `Ok` says how many rows were inserted, which
/// is all of them, and which records were left out.
pub fn load_rows<P: Fn(&str) -> Option<rusqlite::types::Value>>(
    conn: &rusqlite::Connection,
    data: &[u8],
    parse_real: &P,
) -> (out: Result<LoadReport, LoadError>)
    requires
        forall|t: &str| #[trigger] parse_real.requires((t,)),
    ensures
        out matches Ok(report) ==> {
            &&& report.inserted == rows_of(csv_records(data@)).len()
            &&& report.skipped@.map_values(|k: usize| k as int) == skipped_of(csv_records(data@))
        },
        out matches Err(e) ==> e is Prepare || (e matches LoadError::Insert { row, .. } && row
            < rows_of(csv_records(data@)).len()),
{
    let records = parse_records(data);
    let rows = plan_rows(&records, parse_real);
    let skipped = skipped_rows(&records);
    match insert_rows(conn, &rows) {
        Err(e) => Err(e),
        Ok(inserted) => Ok(LoadReport { inserted, skipped }),
    }
}

/// Loads a CSV text into a fresh table: drops the table, creates it, and
/// inserts one row for each record of seven fields after the header, as
/// [`load_rows`] does. `Ok` holds the name of the table that now holds the
/// rows.
pub fn transform_load<P: Fn(&str) -> Option<rusqlite::types::Value>>(
    conn: &rusqlite::Connection,
    data: &[u8],
    parse_real: &P,
) -> (out: Result<String, LoadError>)
    requires
        forall|t: &str| #[trigger] parse_real.requires((t,)),
    ensures
        out matches Ok(name) ==> name@ == TABLE@,
        out matches Err(LoadError::Insert { row, .. }) ==> row < rows_of(csv_records(data@)).len(),
{
    match reset_table(conn) {
        Err(e) => Err(e),
        Ok(_) => match load_rows(conn, data, parse_real) {
            Err(e) => Err(e),
            Ok(_) => Ok(TABLE.to_owned()),
        },
    }
}

} // verus!
