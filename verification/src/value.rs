//! Values as the SQL engine holds them.

use vstd::prelude::*;

verus! {

#[verifier::external_type_specification]
#[verifier::external_body]
pub struct ExValue(rusqlite::types::Value);

/// `Clone` of `rusqlite::types::Value`, which the outside crate derives:
/// the copy equals the value copied.
pub assume_specification[ <rusqlite::types::Value as Clone>::clone ](
    v: &rusqlite::types::Value,
) -> (out: rusqlite::types::Value)
    ensures
        out == *v,
;

/// One value of a row or of a statement parameter.
///
/// A REAL is carried as the engine's own value, which this crate moves and
/// never opens.
#[derive(Clone, Debug, PartialEq)]
pub enum SqlValue {
    Null,
    Integer(i64),
    Real(rusqlite::types::Value),
    Text(String),
    Blob(Vec<u8>),
}

/// The mathematical reading of an [`SqlValue`].
pub enum SqlValueView {
    Null,
    Integer(int),
    Real(rusqlite::types::Value),
    Text(Seq<char>),
    Blob(Seq<u8>),
}

impl View for SqlValue {
    type V = SqlValueView;

    open spec fn view(&self) -> SqlValueView {
        match *self {
            SqlValue::Null => SqlValueView::Null,
            SqlValue::Integer(i) => SqlValueView::Integer(i as int),
            SqlValue::Real(r) => SqlValueView::Real(r),
            SqlValue::Text(s) => SqlValueView::Text(s@),
            SqlValue::Blob(b) => SqlValueView::Blob(b@),
        }
    }
}

impl SqlValueView {
    /// Whether the value can stand in a REAL column's place: an integer or a
    /// real.
    pub open spec fn is_numeric(self) -> bool {
        self is Integer || self is Real
    }
}

/// The readings of a sequence of values, one for one.
pub open spec fn views(values: Seq<SqlValue>) -> Seq<SqlValueView> {
    Seq::new(values.len(), |i: int| values[i]@)
}

/// What a numeric field of a loaded row becomes: the real that its text
/// parsed to, or the integer zero where it did not parse.
pub open spec fn or_zero(parsed: Option<rusqlite::types::Value>) -> SqlValueView {
    match parsed {
        Some(r) => SqlValueView::Real(r),
        None => SqlValueView::Integer(0),
    }
}

impl SqlValue {
    /// A text value holding a copy of `text`.
    pub fn text(text: &str) -> (out: SqlValue)
        ensures
            out@ == SqlValueView::Text(text@),
    {
        SqlValue::Text(text.to_owned())
    }

    /// The value of a numeric field whose text was handed to a parser of
    /// reals: `parsed` is what the parser made of it, `None` where the text
    /// is no number. A field that is no number counts as zero. In a column
    /// of REAL affinity the engine stores that zero as the real `0.0`.
    pub fn measurement_or_zero(parsed: Option<rusqlite::types::Value>) -> (out: SqlValue)
        ensures
            out@ == or_zero(parsed),
    {
        match parsed {
            Some(r) => SqlValue::Real(r),
            None => SqlValue::Integer(0),
        }
    }

    /// Whether the value is an integer or a real.
    pub fn is_numeric(&self) -> (out: bool)
        ensures
            out == self@.is_numeric(),
    {
        match self {
            SqlValue::Integer(_) => true,
            SqlValue::Real(_) => true,
            _ => false,
        }
    }

    /// A copy of the value.
    pub fn duplicate(&self) -> (out: SqlValue)
        ensures
            out@ == self@,
    {
        match self {
            SqlValue::Null => SqlValue::Null,
            SqlValue::Integer(i) => SqlValue::Integer(*i),
            SqlValue::Real(r) => SqlValue::Real(r.clone()),
            SqlValue::Text(s) => SqlValue::Text(s.clone()),
            SqlValue::Blob(b) => {
                let mut bytes: Vec<u8> = Vec::new();
                let mut i: usize = 0;
                while i < b.len()
                    invariant
                        i <= b.len(),
                        bytes@ == b@.take(i as int),
                    decreases b.len() - i,
                {
                    bytes.push(b[i]);
                    assert(b@.take(i + 1) =~= b@.take(i as int).push(b@[i as int]));
                    i += 1;
                }
                assert(b@.take(b.len() as int) =~= b@);
                SqlValue::Blob(bytes)
            },
        }
    }
}

} // verus!
