//! The shared session state: connection fields, listings, the dataset
//! selection, the pagination offset, and the display cache. The string
//! projection of the cached rows is regenerated inside every mutation entry
//! point, so the raw rows and their string form cannot diverge.

use vstd::prelude::*;
use vstd::string::StringExecFns;

use crate::client::InfluxClient;
use crate::value::CellValue;
use crate::value::row_strings_match;
use crate::value::rows_strings_match;
use crate::value::rows_to_strings;

verus! {

/// One logical session of shared state. Concurrent fetch and export tasks
/// read and update a single container of this type under mutual exclusion;
/// every read is a snapshot that may be stale by one in-flight completion.
pub struct AppState {
    /// Host text as typed for the next connect.
    pub host: String,
    /// Proxy text as typed for the next connect; empty means none.
    pub proxy: String,
    /// The databases listed at the last connect.
    pub databases: Vec<String>,
    /// The measurements listed for the selected database.
    pub measurements: Vec<String>,
    /// The selected database, if any.
    pub selected_db: Option<String>,
    /// The selected measurement, if any.
    pub selected_measurement: Option<String>,
    /// Column names of the currently loaded result.
    pub current_columns: Vec<String>,
    /// Raw rows of the currently loaded result.
    pub current_data: Vec<Vec<CellValue>>,
    /// Cached string projection of `current_data`, kept in lockstep.
    pub current_data_strings: Vec<Vec<String>>,
    /// The ad-hoc statement as typed.
    pub custom_query: String,
    /// Human-readable status text.
    pub status: String,
    /// Whether an operation is in flight.
    pub is_loading: bool,
    /// The interactive pagination offset; advances by rows actually returned.
    pub offset: usize,
    /// The endpoint of the connected session, if any.
    pub client: Option<InfluxClient>,
}

impl AppState {
    /// The display cache is well formed: the string rows are exactly the
    /// projection of the raw rows.
    pub open spec fn strings_in_sync(self) -> bool {
        rows_strings_match(self.current_data@, self.current_data_strings@)
    }

    /// Everything but the result data, the status text and the busy flag is
    /// the same in `post` as in `pre`.
    pub open spec fn non_data_unchanged(pre: AppState, post: AppState) -> bool {
        &&& post.host == pre.host
        &&& post.proxy == pre.proxy
        &&& post.databases == pre.databases
        &&& post.measurements == pre.measurements
        &&& post.selected_db == pre.selected_db
        &&& post.selected_measurement == pre.selected_measurement
        &&& post.custom_query == pre.custom_query
        &&& post.status == pre.status
        &&& post.is_loading == pre.is_loading
        &&& post.offset == pre.offset
        &&& post.client == pre.client
    }

    /// Replaces the loaded result: new columns, new rows, and the string
    /// projection regenerated in full. Used for the first chunk of a new
    /// load or for a one-shot query's result.
    pub fn update_data(&mut self, columns: Vec<String>, data: Vec<Vec<CellValue>>)
        ensures
            final(self).current_columns == columns,
            final(self).current_data == data,
            final(self).strings_in_sync(),
            AppState::non_data_unchanged(*old(self), *final(self)),
    {
        self.current_columns = columns;
        self.current_data_strings = rows_to_strings(&data);
        self.current_data = data;
    }

    /// Appends rows and their string projection without touching the
    /// columns. Used for every chunk after the first; calling it before any
    /// replacement on a fresh dataset selection is a caller error, prevented
    /// by resetting state on selection, not here.
    pub fn extend_data(&mut self, data: Vec<Vec<CellValue>>)
        ensures
            final(self).current_data@ == old(self).current_data@ + data@,
            final(self).current_data_strings@.len() == old(self).current_data_strings@.len()
                + data@.len(),
            forall|i: int| 0 <= i < old(self).current_data_strings@.len()
                ==> final(self).current_data_strings@[i] == old(self).current_data_strings@[i],
            forall|i: int| 0 <= i < data@.len() ==> #[trigger] row_strings_match(
                data@[i]@,
                final(self).current_data_strings@[old(self).current_data_strings@.len() + i]@,
            ),
            final(self).current_columns == old(self).current_columns,
            old(self).strings_in_sync() ==> final(self).strings_in_sync(),
            AppState::non_data_unchanged(*old(self), *final(self)),
    {
        let mut new_strings = rows_to_strings(&data);
        let mut data = data;
        self.current_data_strings.append(&mut new_strings);
        self.current_data.append(&mut data);
    }

    /// Records a new measurement selection and atomically invalidates the
    /// cursor and the loaded rows; the columns are replaced by the first
    /// chunk of the new load.
    pub fn select_measurement(&mut self, measurement: String)
        ensures
            final(self).selected_measurement == Some(measurement),
            final(self).offset == 0,
            final(self).current_data@.len() == 0,
            final(self).current_data_strings@.len() == 0,
            final(self).strings_in_sync(),
            final(self).host == old(self).host,
            final(self).proxy == old(self).proxy,
            final(self).databases == old(self).databases,
            final(self).measurements == old(self).measurements,
            final(self).selected_db == old(self).selected_db,
            final(self).current_columns == old(self).current_columns,
            final(self).custom_query == old(self).custom_query,
            final(self).status == old(self).status,
            final(self).is_loading == old(self).is_loading,
            final(self).client == old(self).client,
    {
        self.selected_measurement = Some(measurement);
        self.offset = 0;
        self.current_data = Vec::new();
        self.current_data_strings = Vec::new();
    }
}

/// The raw rows after a replacement with `base` followed by the given
/// appends, in call order. One recursion step is exactly what one
/// `extend_data` does to the raw rows; `base` is what `update_data` left.
pub open spec fn rows_after_appends(
    base: Seq<Vec<CellValue>>,
    appends: Seq<Seq<Vec<CellValue>>>,
) -> Seq<Vec<CellValue>>
    decreases appends.len(),
{
    if appends.len() == 0 {
        base
    } else {
        rows_after_appends(base + appends[0], appends.drop_first())
    }
}

/// Law: a replacement with `rows` followed by any number of appends yields
/// exactly the concatenation of `rows` and the appended batches, in call
/// order.
pub proof fn lemma_replace_then_appends(
    rows: Seq<Vec<CellValue>>,
    appends: Seq<Seq<Vec<CellValue>>>,
)
    ensures
        rows_after_appends(rows, appends) == rows + appends.flatten(),
    decreases appends.len(),
{
    if appends.len() == 0 {
        assert(rows + appends.flatten() =~= rows);
    } else {
        lemma_replace_then_appends(rows + appends[0], appends.drop_first());
        assert((rows + appends[0]) + appends.drop_first().flatten() =~= rows + (appends[0]
            + appends.drop_first().flatten()));
    }
}

/// Law: in any well-formed session whose raw rows are the result of a
/// replacement followed by appends, the cached string rows have the same
/// length as the concatenated raw rows and, index for index, their content
/// under the value-to-string projection rule.
pub proof fn lemma_replace_then_appends_strings(
    s: AppState,
    rows: Seq<Vec<CellValue>>,
    appends: Seq<Seq<Vec<CellValue>>>,
)
    requires
        s.strings_in_sync(),
        s.current_data@ == rows_after_appends(rows, appends),
    ensures
        s.current_data_strings@.len() == (rows + appends.flatten()).len(),
        forall|i: int| 0 <= i < (rows + appends.flatten()).len() ==> #[trigger] row_strings_match(
            (rows + appends.flatten())[i]@,
            s.current_data_strings@[i]@,
        ),
{
    lemma_replace_then_appends(rows, appends);
}

impl Default for AppState {
    /// A fresh, unconnected session: everything empty, status `Ready`.
    fn default() -> (r: AppState)
        ensures
            r.host@.len() == 0,
            r.proxy@.len() == 0,
            r.databases@.len() == 0,
            r.measurements@.len() == 0,
            r.selected_db is None,
            r.selected_measurement is None,
            r.current_columns@.len() == 0,
            r.current_data@.len() == 0,
            r.current_data_strings@.len() == 0,
            r.custom_query@.len() == 0,
            r.status@ == "Ready"@,
            !r.is_loading,
            r.offset == 0,
            r.client is None,
            r.strings_in_sync(),
    {
        AppState {
            host: String::new(),
            proxy: String::new(),
            databases: Vec::new(),
            measurements: Vec::new(),
            selected_db: None,
            selected_measurement: None,
            current_columns: Vec::new(),
            current_data: Vec::new(),
            current_data_strings: Vec::new(),
            custom_query: String::new(),
            status: String::from_str("Ready"),
            is_loading: false,
            offset: 0,
            client: None,
        }
    }
}

} // verus!
