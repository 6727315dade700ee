//! Bounded-chunk pagination of one dataset: the generated statement, the
//! outcome of one chunk fetch, the offset cursor, and the rule that decides
//! when a caller keeps paginating.

use vstd::prelude::*;
use vstd::string::StringExecFns;

use crate::cache::AppState;
use crate::client::QueryResponse;
use crate::client::decode_response;
use crate::error::QueryError;
use crate::numfmt::dec_rep;
use crate::numfmt::usize_to_string;
use crate::value::CellValue;

verus! {

/// Rows per chunk on the interactive path: small enough to keep UI latency
/// predictable.
pub const INTERACTIVE_CHUNK_SIZE: usize = 10000;

/// Rows per chunk on the export path: deliberately larger, since export
/// favors throughput and has no per-row render cost.
pub const EXPORT_CHUNK_SIZE: usize = 50000;

/// What one chunk fetch produced. Zero rows under `Data` still carries the
/// (possibly first-seen) column header; `Empty` is the server's "no data",
/// with nothing to apply at all.
pub enum ChunkOutcome {
    /// A present series: its column header and at most a chunk of rows.
    Data {
        /// Column names, order significant.
        columns: Vec<String>,
        /// The rows of this chunk, at most the requested chunk size.
        rows: Vec<Vec<CellValue>>,
    },
    /// The server returned no result or no series for this page.
    Empty,
}

/// The statement that fetches one chunk. The measurement name is
/// interpolated directly into the quoted identifier with no escaping: a name
/// containing an unescaped quote corrupts the statement, and callers must
/// not treat this as safe against adversarial names.
pub open spec fn chunk_statement_spec(measurement: Seq<char>, limit: nat, offset: nat) -> Seq<
    char,
> {
    "SELECT * FROM \""@ + measurement + "\" LIMIT "@ + dec_rep(limit) + " OFFSET "@ + dec_rep(
        offset,
    )
}

/// Builds the statement that fetches `limit` rows of `measurement` starting
/// at `offset`.
pub fn chunk_statement(measurement: &str, limit: usize, offset: usize) -> (r: String)
    ensures
        r@ == chunk_statement_spec(measurement@, limit as nat, offset as nat),
{
    let mut s = String::from_str("SELECT * FROM \"");
    s.append(measurement);
    s.append("\" LIMIT ");
    let limit_text = usize_to_string(limit);
    s.append(limit_text.as_str());
    s.append(" OFFSET ");
    let offset_text = usize_to_string(offset);
    s.append(offset_text.as_str());
    s
}

/// What `chunk_from_query` owes: "no data" maps to `Empty`, a present series
/// maps to `Data` with exactly the decoded columns and rows.
pub open spec fn chunk_outcome_spec(
    decoded: Option<(Vec<String>, Vec<Vec<CellValue>>)>,
    r: ChunkOutcome,
) -> bool {
    match decoded {
        None => r is Empty,
        Some(p) => r matches ChunkOutcome::Data { columns, rows } && columns == p.0 && rows
            == p.1,
    }
}

/// Folds a decoded query result into a chunk outcome.
pub fn chunk_from_query(decoded: Option<(Vec<String>, Vec<Vec<CellValue>>)>) -> (r: ChunkOutcome)
    ensures
        chunk_outcome_spec(decoded, r),
{
    match decoded {
        None => ChunkOutcome::Empty,
        Some((columns, rows)) => ChunkOutcome::Data { columns, rows },
    }
}

/// What `fetch_chunk_decode` owes: the server's reported error passes
/// through as a database error; no first result or no series is `Empty`;
/// otherwise the first series' columns and rows come back as `Data`.
pub open spec fn fetch_chunk_spec(resp: QueryResponse, r: Result<ChunkOutcome, QueryError>) -> bool {
    let results = resp.results@;
    if results.len() == 0 {
        r matches Ok(c) && c is Empty
    } else if results[0].error is Some {
        r matches Err(e) && e matches QueryError::Database(m) && m == results[0].error->0
    } else if results[0].series@.len() == 0 {
        r matches Ok(c) && c is Empty
    } else {
        r matches Ok(c) && c matches ChunkOutcome::Data { columns, rows } && columns == results[0].series@[0].columns
            && rows == results[0].series@[0].values
    }
}

/// Decodes one chunk fetch's response: the server's reported error passes
/// through; otherwise the decoded result becomes a chunk outcome.
pub fn fetch_chunk_decode(resp: QueryResponse) -> (r: Result<ChunkOutcome, QueryError>)
    ensures
        fetch_chunk_spec(resp, r),
{
    let decoded = decode_response(resp);
    match decoded {
        Err(e) => Err(e),
        Ok(o) => Ok(chunk_from_query(o)),
    }
}

/// The offset and row-count bookkeeping for incremental pagination of one
/// dataset. The offset advances by the number of rows actually returned, not
/// by the requested chunk size, so a short chunk both signals end-of-data
/// and leaves the cursor at the true final offset.
pub struct Cursor {
    /// Where the next chunk starts.
    pub offset: usize,
    /// How many rows the fetches so far returned in total.
    pub total_rows: usize,
}

impl Cursor {
    /// A cursor at the start of a dataset.
    pub fn new() -> (r: Cursor)
        ensures
            r.offset == 0,
            r.total_rows == 0,
    {
        Cursor { offset: 0, total_rows: 0 }
    }

    /// Advances past one fetched chunk by the rows it actually returned.
    pub fn advance(&mut self, returned: usize)
        requires
            old(self).offset + returned <= usize::MAX,
            old(self).total_rows + returned <= usize::MAX,
        ensures
            final(self).offset == old(self).offset + returned,
            final(self).total_rows == old(self).total_rows + returned,
    {
        self.offset = self.offset + returned;
        self.total_rows = self.total_rows + returned;
    }
}

/// A chunk is the final page exactly when it returned strictly fewer rows
/// than were requested; a chunk of exactly the requested size obliges the
/// caller to keep paginating.
pub fn is_final_chunk(returned: usize, chunk_size: usize) -> (r: bool)
    ensures
        r == (returned < chunk_size),
{
    returned < chunk_size
}

/// Applies one interactive chunk to the session: the first chunk of a load
/// (offset zero) replaces columns and rows, every later chunk appends rows;
/// either way the pagination offset advances by the rows actually returned.
pub fn apply_chunk(
    state: &mut AppState,
    offset: usize,
    columns: Vec<String>,
    rows: Vec<Vec<CellValue>>,
)
    requires
        old(state).offset + rows@.len() <= usize::MAX,
    ensures
        offset == 0 ==> final(state).current_columns == columns && final(state).current_data
            == rows,
        offset != 0 ==> final(state).current_columns == old(state).current_columns
            && final(state).current_data@ == old(state).current_data@ + rows@,
        final(state).offset == old(state).offset + rows@.len(),
        offset != 0 && old(state).strings_in_sync() ==> final(state).strings_in_sync(),
        offset == 0 ==> final(state).strings_in_sync(),
        final(state).host == old(state).host,
        final(state).proxy == old(state).proxy,
        final(state).databases == old(state).databases,
        final(state).measurements == old(state).measurements,
        final(state).selected_db == old(state).selected_db,
        final(state).selected_measurement == old(state).selected_measurement,
        final(state).custom_query == old(state).custom_query,
        final(state).status == old(state).status,
        final(state).is_loading == old(state).is_loading,
        final(state).client == old(state).client,
{
    let row_count = rows.len();
    if offset == 0 {
        state.update_data(columns, rows);
    } else {
        state.extend_data(rows);
    }
    state.offset = state.offset + row_count;
}

/// The sum of the row counts of a sequence of fetches.
pub open spec fn sum_counts(counts: Seq<usize>) -> int
    decreases counts.len(),
{
    if counts.len() == 0 {
        0
    } else {
        counts[0] + sum_counts(counts.drop_first())
    }
}

/// The cursor offset after a sequence of fetches, each advancing by the rows
/// it actually returned, starting from `start`. One recursion step is
/// exactly what one `Cursor::advance` (and one `apply_chunk`) does to the
/// offset.
pub open spec fn offset_after_fetches(start: int, counts: Seq<usize>) -> int
    decreases counts.len(),
{
    if counts.len() == 0 {
        start
    } else {
        offset_after_fetches(start + counts[0], counts.drop_first())
    }
}

/// Law: for every sequence of interactive fetches, the cursor offset
/// afterwards equals the starting offset plus the sum of the row counts the
/// fetches actually returned — not the number of fetches times the requested
/// chunk size.
pub proof fn lemma_offset_is_sum_of_counts(start: int, counts: Seq<usize>)
    ensures
        offset_after_fetches(start, counts) == start + sum_counts(counts),
    decreases counts.len(),
{
    if counts.len() > 0 {
        lemma_offset_is_sum_of_counts(start + counts[0], counts.drop_first());
    }
}

} // verus!
