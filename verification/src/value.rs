//! The dynamically typed scalar values that fill result cells, and the
//! projection rule that turns them into display/export text.

use vstd::prelude::*;

verus! {

/// One scalar cell of a tabular query result, held as plain data. A numeric
/// cell carries its natural decimal textual form; a structural cell (array or
/// object) carries its generic textual serialization.
#[derive(Debug, Clone, PartialEq)]
pub enum CellValue {
    /// A string value; the projection passes it through unchanged.
    Text(String),
    /// A numeric value, as its natural decimal textual form.
    Number(String),
    /// A boolean value; renders as `true` / `false`.
    Boolean(bool),
    /// The null value; renders as the literal text `null`.
    Null,
    /// Any other structural value, as its generic textual serialization.
    Other(String),
}

/// The value-to-string projection rule, reproduced exactly for display and
/// export parity.
pub open spec fn string_of(v: CellValue) -> Seq<char> {
    match v {
        CellValue::Text(s) => s@,
        CellValue::Number(t) => t@,
        CellValue::Boolean(b) => if b { "true"@ } else { "false"@ },
        CellValue::Null => "null"@,
        CellValue::Other(t) => t@,
    }
}

/// Renders one cell for display or export.
pub fn value_to_string(v: &CellValue) -> (r: String)
    ensures
        r@ == string_of(*v),
{
    match v {
        CellValue::Text(s) => s.clone(),
        CellValue::Number(t) => t.clone(),
        CellValue::Boolean(b) => if *b { "true".to_owned() } else { "false".to_owned() },
        CellValue::Null => "null".to_owned(),
        CellValue::Other(t) => t.clone(),
    }
}

/// The string row `srow` is exactly the projection of the raw row `row`:
/// same length, and cell for cell the projection rule applied.
pub open spec fn row_strings_match(row: Seq<CellValue>, srow: Seq<String>) -> bool {
    &&& srow.len() == row.len()
    &&& forall|j: int| 0 <= j < row.len() ==> #[trigger] srow[j]@ == string_of(row[j])
}

/// The string rows `srows` are exactly the projection of the raw rows `rows`,
/// row for row.
pub open spec fn rows_strings_match(rows: Seq<Vec<CellValue>>, srows: Seq<Vec<String>>) -> bool {
    &&& srows.len() == rows.len()
    &&& forall|i: int| 0 <= i < rows.len() ==> #[trigger] row_strings_match(rows[i]@, srows[i]@)
}

/// Projects one raw row to its string form.
pub fn row_to_strings(row: &Vec<CellValue>) -> (r: Vec<String>)
    ensures
        row_strings_match(row@, r@),
{
    let mut r: Vec<String> = Vec::new();
    let mut i: usize = 0;
    while i < row.len()
        invariant
            i <= row.len(),
            r@.len() == i,
            forall|j: int| 0 <= j < i ==> #[trigger] r@[j]@ == string_of(row@[j]),
        decreases row.len() - i,
    {
        r.push(value_to_string(&row[i]));
        i = i + 1;
    }
    r
}

/// Projects raw rows to their string form, row for row.
pub fn rows_to_strings(rows: &Vec<Vec<CellValue>>) -> (r: Vec<Vec<String>>)
    ensures
        rows_strings_match(rows@, r@),
{
    let mut r: Vec<Vec<String>> = Vec::new();
    let mut i: usize = 0;
    while i < rows.len()
        invariant
            i <= rows.len(),
            r@.len() == i,
            forall|j: int| 0 <= j < i ==> #[trigger] row_strings_match(rows@[j]@, r@[j]@),
        decreases rows.len() - i,
    {
        r.push(row_to_strings(&rows[i]));
        i = i + 1;
    }
    r
}

} // verus!
