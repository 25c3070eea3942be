use vstd::prelude::*;

verus! {

/// The text a cell carries: `Some` exactly for a string cell.
pub open spec fn cell_text(c: Option<String>) -> Option<Seq<char>> {
    match c {
        Some(s) => Some(s@),
        None => None,
    }
}

/// The extracted rows as mathematical sequences of their cells' texts.
pub open spec fn cells_view(rows: Seq<Vec<Option<String>>>) -> Seq<Seq<Option<Seq<char>>>> {
    rows.map_values(|row: Vec<Option<String>>| row@.map_values(|c: Option<String>| cell_text(c)))
}

/// The worker rows the pool API body holds: `Some` exactly when the body
/// is well-formed JSON of the documented shape — an object whose
/// `hashrate` field is a number and whose `workers` field is an array of
/// arrays — and then, row by row and cell by cell, each cell's text where
/// the cell is a JSON string. The value depends on the body text alone.
pub uninterp spec fn api_rows(s: Seq<char>) -> Option<Seq<Seq<Option<Seq<char>>>>>;

/// Relies on serde_json: `from_str::<Value>` parses the body, and
/// `Value::get`, `Value::is_number`, `Value::as_array` and `Value::as_str`
/// check the documented shape and read the cells; each is a function of
/// the body text alone.
#[verifier::external_body]
pub(crate) fn extract_api_rows(body: &str) -> (r: Option<Vec<Vec<Option<String>>>>)
    ensures
        r is Some <==> api_rows(body@) is Some,
        r matches Some(rows) ==> api_rows(body@) == Some(cells_view(rows@)),
{
    let v: serde_json::Value = serde_json::from_str(body).ok()?;
    if !v.get("hashrate")?.is_number() {
        return None;
    }
    let entries = v.get("workers")?.as_array()?;
    let mut rows = Vec::new();
    for entry in entries {
        let cells = entry.as_array()?;
        rows.push(cells.iter().map(|c| c.as_str().map(str::to_string)).collect());
    }
    Some(rows)
}

} // verus!
