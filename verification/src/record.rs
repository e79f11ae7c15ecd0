//! Rows: as text from a CSV record, and as values of the table.

use vstd::prelude::*;
use crate::value::{or_zero, SqlValue, SqlValueView};

verus! {

/// A CSV record of seven fields, each still text.
#[derive(Clone, Debug, PartialEq, Eq)]
pub struct TextRow {
    pub date: String,
    pub temperature_minimum: String,
    pub temperature_maximum: String,
    pub precipitation: String,
    pub snowfall: String,
    pub snow_depth: String,
    pub average_wind_speed: String,
}

impl TextRow {
    /// The seven fields, in the order of the columns.
    pub open spec fn fields(self) -> Seq<Seq<char>> {
        seq![
            self.date@,
            self.temperature_minimum@,
            self.temperature_maximum@,
            self.precipitation@,
            self.snowfall@,
            self.snow_depth@,
            self.average_wind_speed@,
        ]
    }
}

/// The fields of each row of a sequence, one for one.
pub open spec fn row_fields(rows: Seq<TextRow>) -> Seq<Seq<Seq<char>>> {
    Seq::new(rows.len(), |i: int| rows[i].fields())
}

/// One row of the table: a date and six measurements.
#[derive(Clone, Debug, PartialEq)]
pub struct Observation {
    pub date: String,
    pub temperature_minimum: SqlValue,
    pub temperature_maximum: SqlValue,
    pub precipitation: SqlValue,
    pub snowfall: SqlValue,
    pub snow_depth: SqlValue,
    pub average_wind_speed: SqlValue,
}

impl Observation {
    /// The seven values of the row, in the order of the columns.
    pub open spec fn columns(self) -> Seq<SqlValueView> {
        seq![
            SqlValueView::Text(self.date@),
            self.temperature_minimum@,
            self.temperature_maximum@,
            self.precipitation@,
            self.snowfall@,
            self.snow_depth@,
            self.average_wind_speed@,
        ]
    }

    /// Every measurement is an integer or a real.
    pub open spec fn is_numeric(self) -> bool {
        forall|i: int| 1 <= i < 7 ==> (#[trigger] self.columns()[i]).is_numeric()
    }

    /// The row that a CSV record loads as. Each of the six arguments after
    /// `date` is what a parser of reals made of the field of that column,
    /// `None` where the field is no number: such a field loads as zero.
    pub fn from_parsed(
        date: &str,
        temperature_minimum: Option<rusqlite::types::Value>,
        temperature_maximum: Option<rusqlite::types::Value>,
        precipitation: Option<rusqlite::types::Value>,
        snowfall: Option<rusqlite::types::Value>,
        snow_depth: Option<rusqlite::types::Value>,
        average_wind_speed: Option<rusqlite::types::Value>,
    ) -> (out: Observation)
        ensures
            out.columns() == seq![
                SqlValueView::Text(date@),
                or_zero(temperature_minimum),
                or_zero(temperature_maximum),
                or_zero(precipitation),
                or_zero(snowfall),
                or_zero(snow_depth),
                or_zero(average_wind_speed),
            ],
            out.is_numeric(),
    {
        let out = Observation {
            date: date.to_owned(),
            temperature_minimum: SqlValue::measurement_or_zero(temperature_minimum),
            temperature_maximum: SqlValue::measurement_or_zero(temperature_maximum),
            precipitation: SqlValue::measurement_or_zero(precipitation),
            snowfall: SqlValue::measurement_or_zero(snowfall),
            snow_depth: SqlValue::measurement_or_zero(snow_depth),
            average_wind_speed: SqlValue::measurement_or_zero(average_wind_speed),
        };
        assert(out.columns() =~= seq![
            SqlValueView::Text(date@),
            or_zero(temperature_minimum),
            or_zero(temperature_maximum),
            or_zero(precipitation),
            or_zero(snowfall),
            or_zero(snow_depth),
            or_zero(average_wind_speed),
        ]);
        out
    }

    /// The parameters of the statement that inserts the row: its seven
    /// values, in the order of the columns.
    pub fn to_params(&self) -> (out: Vec<SqlValue>)
        ensures
            crate::value::views(out@) == self.columns(),
    {
        let mut out: Vec<SqlValue> = Vec::new();
        out.push(SqlValue::text(self.date.as_str()));
        out.push(self.temperature_minimum.duplicate());
        out.push(self.temperature_maximum.duplicate());
        out.push(self.precipitation.duplicate());
        out.push(self.snowfall.duplicate());
        out.push(self.snow_depth.duplicate());
        out.push(self.average_wind_speed.duplicate());
        assert(crate::value::views(out@) =~= self.columns());
        out
    }
}

} // verus!
