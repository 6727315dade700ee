//! Streaming export of a whole dataset, chunk by chunk, without ever
//! materializing the full result set: a step machine that the surrounding
//! application drives once per fetched chunk, writing what each step hands
//! back, plus a driver over an in-memory sink that runs a whole outcome
//! sequence to completion.

use vstd::prelude::*;

use crate::paginate::ChunkOutcome;
use crate::value::CellValue;
use crate::value::row_strings_match;
use crate::value::rows_strings_match;
use crate::value::rows_to_strings;

verus! {

/// The bookkeeping of one export run. Unlike the interactive cursor, the
/// export offset advances by the fixed chunk size, not by the rows actually
/// returned: the short-page check already terminates the run, and the fixed
/// stride avoids an extra round trip to confirm emptiness.
pub struct ExportState {
    /// Where the next chunk would start.
    pub offset: usize,
    /// How many data rows the run has produced so far.
    pub total: usize,
    /// Whether the header record has been handed to the sink. Set on receipt
    /// of the first chunk, even one with zero data rows.
    pub header_written: bool,
    /// Whether the run is over: a zero-row chunk, a short chunk, or the
    /// server's "no data".
    pub finished: bool,
}

impl ExportState {
    /// The state at the start of an export run.
    pub fn new() -> (r: ExportState)
        ensures
            r.offset == 0,
            r.total == 0,
            !r.header_written,
            !r.finished,
    {
        ExportState { offset: 0, total: 0, header_written: false, finished: false }
    }
}

/// What one export step tells the sink to write: the header record, at most
/// once per run, and the stringified data records of the chunk.
pub struct WritePlan {
    /// The header record, on receipt of the first chunk only.
    pub header: Option<Vec<String>>,
    /// The chunk's rows under the value-to-string projection rule.
    pub rows: Vec<Vec<String>>,
}

/// The number of data rows a chunk outcome carries.
pub open spec fn outcome_rows_len(o: ChunkOutcome) -> int {
    match o {
        ChunkOutcome::Data { columns, rows } => rows.len() as int,
        ChunkOutcome::Empty => 0,
    }
}

/// The total number of data rows a sequence of chunk outcomes carries.
pub open spec fn sum_outcome_rows(s: Seq<ChunkOutcome>) -> int
    decreases s.len(),
{
    if s.len() == 0 {
        0
    } else {
        outcome_rows_len(s[0]) + sum_outcome_rows(s.drop_first())
    }
}

proof fn lemma_sum_outcome_rows_nonneg(s: Seq<ChunkOutcome>)
    ensures
        sum_outcome_rows(s) >= 0,
    decreases s.len(),
{
    if s.len() > 0 {
        lemma_sum_outcome_rows_nonneg(s.drop_first());
    }
}

/// The data rows a chunk outcome carries.
pub open spec fn outcome_rows(o: ChunkOutcome) -> Seq<Vec<CellValue>> {
    match o {
        ChunkOutcome::Data { columns, rows } => rows@,
        ChunkOutcome::Empty => Seq::empty(),
    }
}

/// All the data rows a sequence of chunk outcomes carries, in order.
pub open spec fn all_rows(s: Seq<ChunkOutcome>) -> Seq<Vec<CellValue>>
    decreases s.len(),
{
    if s.len() == 0 {
        Seq::empty()
    } else {
        outcome_rows(s[0]) + all_rows(s.drop_first())
    }
}

/// How many outcomes an export run consumes before it terminates: everything
/// up to and including the first "no data" or the first chunk shorter than
/// the requested size, or all of them if every chunk is full.
pub open spec fn run_consumes(s: Seq<ChunkOutcome>, chunk_size: nat) -> int
    decreases s.len(),
{
    if s.len() == 0 {
        0
    } else {
        match s[0] {
            ChunkOutcome::Empty => 1,
            ChunkOutcome::Data { columns, rows } => if rows@.len() < chunk_size {
                1
            } else {
                1 + run_consumes(s.drop_first(), chunk_size)
            },
        }
    }
}

proof fn lemma_all_rows_push(s: Seq<ChunkOutcome>, x: ChunkOutcome)
    ensures
        all_rows(s.push(x)) == all_rows(s) + outcome_rows(x),
    decreases s.len(),
{
    if s.len() == 0 {
        assert(s.push(x)[0] == x);
        assert(s.push(x).drop_first() =~= Seq::<ChunkOutcome>::empty());
        assert(all_rows(s.push(x)) == outcome_rows(x) + all_rows(Seq::<ChunkOutcome>::empty()));
        assert(all_rows(s.push(x)) =~= all_rows(s) + outcome_rows(x));
    } else {
        assert(s.push(x)[0] == s[0]);
        assert(s.push(x).drop_first() =~= s.drop_first().push(x));
        lemma_all_rows_push(s.drop_first(), x);
        assert(all_rows(s.push(x)) == outcome_rows(s[0]) + (all_rows(s.drop_first())
            + outcome_rows(x)));
        assert(all_rows(s.push(x)) =~= all_rows(s) + outcome_rows(x));
    }
}

proof fn lemma_rows_strings_match_concat(
    a: Seq<Vec<CellValue>>,
    sa: Seq<Vec<String>>,
    b: Seq<Vec<CellValue>>,
    sb: Seq<Vec<String>>,
)
    requires
        rows_strings_match(a, sa),
        rows_strings_match(b, sb),
    ensures
        rows_strings_match(a + b, sa + sb),
{
    assert forall|i: int| 0 <= i < (a + b).len() implies #[trigger] row_strings_match(
        (a + b)[i]@,
        (sa + sb)[i]@,
    ) by {
        if i < a.len() {
            assert((a + b)[i] == a[i]);
            assert((sa + sb)[i] == sa[i]);
        } else {
            assert((a + b)[i] == b[i - a.len()]);
            assert((sa + sb)[i] == sb[i - a.len()]);
        }
    }
}

/// Advances one export run past one fetched chunk. The header is emitted on
/// the first chunk received, even a zero-row one; a zero-row chunk ends the
/// run without advancing the offset; a short-but-nonzero chunk has its rows
/// emitted and then ends the run; the server's "no data" ends the run with
/// nothing emitted at all. Any query error instead ends the run in the
/// caller with nothing applied, leaving whatever the sink holds in place.
pub fn export_step(st: &mut ExportState, chunk_size: usize, outcome: ChunkOutcome) -> (plan:
    WritePlan)
    requires
        !old(st).finished,
        old(st).total + outcome_rows_len(outcome) <= usize::MAX,
        old(st).offset + chunk_size <= usize::MAX,
    ensures
        outcome is Empty ==> final(st).finished && final(st).total == old(st).total
            && final(st).offset == old(st).offset
            && final(st).header_written == old(st).header_written
            && plan.header is None && plan.rows@.len() == 0,
        outcome matches ChunkOutcome::Data { columns, rows } ==> {
            &&& final(st).header_written
            &&& plan.header == if old(st).header_written {
                None::<Vec<String>>
            } else {
                Some(columns)
            }
            &&& rows_strings_match(rows@, plan.rows@)
            &&& rows@.len() == 0 ==> final(st).finished && final(st).total == old(st).total
                && final(st).offset == old(st).offset
            &&& rows@.len() > 0 ==> final(st).total == old(st).total + rows@.len()
                && final(st).offset == old(st).offset + chunk_size
                && final(st).finished == (rows@.len() < chunk_size)
        },
{
    match outcome {
        ChunkOutcome::Empty => {
            st.finished = true;
            WritePlan { header: None, rows: Vec::new() }
        },
        ChunkOutcome::Data { columns, rows } => {
            let header = if st.header_written {
                None
            } else {
                Some(columns)
            };
            st.header_written = true;
            let row_count = rows.len();
            let srows = rows_to_strings(&rows);
            if row_count == 0 {
                st.finished = true;
            } else {
                st.total = st.total + row_count;
                st.offset = st.offset + chunk_size;
                if row_count < chunk_size {
                    st.finished = true;
                }
            }
            WritePlan { header, rows: srows }
        },
    }
}

/// An in-memory record sink: one header record, then data records in the
/// order they were written. A partial export leaves whatever was already
/// written in place.
pub struct RecordSink {
    /// The header record, once one has been written.
    pub header: Option<Vec<String>>,
    /// The data records, in write order.
    pub records: Vec<Vec<String>>,
}

impl RecordSink {
    /// An empty sink.
    pub fn new() -> (r: RecordSink)
        ensures
            r.header is None,
            r.records@.len() == 0,
    {
        RecordSink { header: None, records: Vec::new() }
    }

    /// Writes one step's plan: the header record if the plan carries one,
    /// then the plan's data records in order.
    pub fn apply(&mut self, plan: WritePlan)
        ensures
            final(self).records@ == old(self).records@ + plan.rows@,
            plan.header matches Some(h) ==> final(self).header == Some(h),
            plan.header is None ==> final(self).header == old(self).header,
    {
        let WritePlan { header, rows } = plan;
        match header {
            Some(h) => {
                self.header = Some(h);
            },
            None => {},
        }
        let mut rows = rows;
        self.records.append(&mut rows);
    }
}

/// Runs one whole export over an in-memory sink, consuming chunk outcomes in
/// order until the run is over or the outcomes run out.
///
/// Law: for every export run, the sink's record count equals the reported
/// row total, and the header has been written exactly when at least one
/// chunk — possibly a zero-row one — was received before termination; the
/// header is then the first chunk's column header, written once. The records
/// are, row for row, the consumed chunks' rows under the value-to-string
/// projection rule.
pub fn run_export(outcomes: Vec<ChunkOutcome>, chunk_size: usize) -> (r: (RecordSink, ExportState))
    requires
        chunk_size > 0,
        sum_outcome_rows(outcomes@) <= usize::MAX,
        outcomes@.len() * chunk_size <= usize::MAX,
    ensures
        r.1.total == r.0.records@.len(),
        r.1.header_written <==> (outcomes@.len() > 0 && outcomes@[0] is Data),
        r.0.header is Some <==> r.1.header_written,
        outcomes@.len() > 0 ==> (outcomes@[0] matches ChunkOutcome::Data { columns, .. }
            ==> r.0.header == Some(columns)),
        rows_strings_match(
            all_rows(outcomes@.take(run_consumes(outcomes@, chunk_size as nat))),
            r.0.records@,
        ),
{
    let mut st = ExportState::new();
    let mut sink = RecordSink::new();
    let mut rest = outcomes;
    let ghost mut processed: int = 0;
    proof {
        assert(rest@ =~= outcomes@.skip(0));
        assert(outcomes@.take(0int) =~= Seq::<ChunkOutcome>::empty());
    }
    while rest.len() > 0 && !st.finished
        invariant
            chunk_size > 0,
            0 <= processed <= outcomes@.len(),
            rest@ == outcomes@.skip(processed),
            st.total == sink.records@.len(),
            st.header_written <==> sink.header is Some,
            st.header_written <==> (processed > 0 && outcomes@[0] is Data),
            processed > 0 && !st.finished ==> st.header_written,
            processed == 0 ==> !st.finished,
            outcomes@.len() > 0 && processed > 0 ==> (outcomes@[0] matches ChunkOutcome::Data {
                columns,
                ..
            } ==> sink.header == Some(columns)),
            st.total + sum_outcome_rows(rest@) <= usize::MAX,
            st.offset + rest@.len() * chunk_size <= usize::MAX,
            rows_strings_match(all_rows(outcomes@.take(processed)), sink.records@),
            !st.finished ==> run_consumes(outcomes@, chunk_size as nat) == processed
                + run_consumes(outcomes@.skip(processed), chunk_size as nat),
            st.finished ==> processed == run_consumes(outcomes@, chunk_size as nat),
        decreases rest@.len(),
    {
        proof {
            assert(rest@[0] == outcomes@[processed]);
            assert(rest@.remove(0) =~= rest@.drop_first());
            assert(sum_outcome_rows(rest@) == outcome_rows_len(rest@[0]) + sum_outcome_rows(
                rest@.drop_first(),
            ));
            lemma_sum_outcome_rows_nonneg(rest@.drop_first());
            assert(rest@.len() * chunk_size == (rest@.len() - 1) * chunk_size + chunk_size)
                by (nonlinear_arith);
        }
        let oc = rest.remove(0);
        let ghost oc_spec = oc;
        let ghost pre_records = sink.records@;
        let plan = export_step(&mut st, chunk_size, oc);
        sink.apply(plan);
        proof {
            assert(outcome_rows(oc_spec).len() == 0 ==> rows_strings_match(
                outcome_rows(oc_spec),
                plan.rows@,
            ));
            lemma_all_rows_push(outcomes@.take(processed), oc_spec);
            assert(outcomes@.take(processed + 1) =~= outcomes@.take(processed).push(oc_spec));
            lemma_rows_strings_match_concat(
                all_rows(outcomes@.take(processed)),
                pre_records,
                outcome_rows(oc_spec),
                plan.rows@,
            );
            let s_tail = outcomes@.skip(processed);
            assert(s_tail[0] == oc_spec);
            assert(s_tail.drop_first() =~= outcomes@.skip(processed + 1));
            processed = processed + 1;
            assert(rest@ =~= outcomes@.skip(processed));
        }
    }
    proof {
        if !st.finished {
            assert(outcomes@.skip(processed) =~= Seq::<ChunkOutcome>::empty());
        }
        assert(processed == run_consumes(outcomes@, chunk_size as nat));
    }
    (sink, st)
}

} // verus!
