//! The statements of the `WeatherDB` table.
//!
//! The table has seven columns: the date as text, then six measurements as
//! reals. It has no key: a date may stand in several rows.

use vstd::prelude::*;

verus! {

/// The name of the table. A finished load answers with it.
pub const TABLE: &'static str = "WeatherDB";

pub const DROP_TABLE: &'static str = "DROP TABLE IF EXISTS WeatherDB";

pub const CREATE_TABLE: &'static str =
    "CREATE TABLE WeatherDB (
            Date TEXT,
            Temperature_Minimum REAL,
            Temperature_Maximum REAL,
            Precipitation REAL,
            Snowfall REAL,
            Snow_Depth REAL,
            Average_Wind_Speed REAL
        )";

/// Takes seven parameters: the columns of the new row, in order.
pub const INSERT_ROW: &'static str =
    "INSERT INTO WeatherDB (Date, Temperature_Minimum, Temperature_Maximum, Precipitation, Snowfall, Snow_Depth, Average_Wind_Speed)
         VALUES (?, ?, ?, ?, ?, ?, ?)";

/// Takes one parameter: the date.
pub const SELECT_BY_DATE: &'static str = "SELECT * FROM WeatherDB WHERE Date = ?";

/// Takes seven parameters: the six measurements, then the date.
pub const UPDATE_BY_DATE: &'static str =
    "UPDATE WeatherDB
        SET Temperature_Minimum=?, Temperature_Maximum=?, Precipitation=?, Snowfall=?, Snow_Depth=?, Average_Wind_Speed=?
        WHERE Date=?";

/// Takes one parameter: the date.
pub const DELETE_BY_DATE: &'static str = "DELETE FROM WeatherDB WHERE Date=?";

} // verus!
