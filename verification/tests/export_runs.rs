use influx_pager::export::ExportState;
use influx_pager::export::RecordSink;
use influx_pager::export::export_step;
use influx_pager::export::run_export;
use influx_pager::paginate::ChunkOutcome;
use influx_pager::paginate::EXPORT_CHUNK_SIZE;
use influx_pager::value::CellValue;

fn number_rows(from: usize, count: usize) -> Vec<Vec<CellValue>> {
    (from..from + count)
        .map(|i| vec![CellValue::Number(i.to_string())])
        .collect()
}

fn columns() -> Vec<String> {
    vec!["v".to_string()]
}

#[test]
fn empty_dataset_writes_header_once_and_nothing_else() {
    let outcomes = vec![ChunkOutcome::Data {
        columns: columns(),
        rows: Vec::new(),
    }];
    let (sink, state) = run_export(outcomes, EXPORT_CHUNK_SIZE);
    assert_eq!(sink.header, Some(columns()));
    assert!(sink.records.is_empty());
    assert_eq!(state.total, 0);
    assert!(state.finished);
    assert!(state.header_written);
}

#[test]
fn no_data_terminates_without_header() {
    let (sink, state) = run_export(vec![ChunkOutcome::Empty], EXPORT_CHUNK_SIZE);
    assert_eq!(sink.header, None);
    assert!(sink.records.is_empty());
    assert_eq!(state.total, 0);
    assert!(state.finished);
    assert!(!state.header_written);
}

#[test]
fn full_then_short_chunk_totals_match_sink() {
    let chunk_size = 4;
    let outcomes = vec![
        ChunkOutcome::Data {
            columns: columns(),
            rows: number_rows(0, 4),
        },
        ChunkOutcome::Data {
            columns: columns(),
            rows: number_rows(4, 3),
        },
    ];
    let (sink, state) = run_export(outcomes, chunk_size);
    assert_eq!(sink.header, Some(columns()));
    assert_eq!(state.total, 7);
    assert_eq!(sink.records.len(), state.total);
    assert_eq!(sink.records[0], vec!["0".to_string()]);
    assert_eq!(sink.records[6], vec!["6".to_string()]);
    assert!(state.finished);
    // The export offset advances by the fixed stride, once per full page.
    assert_eq!(state.offset, 2 * chunk_size);
}

#[test]
fn full_chunk_leaves_the_run_open() {
    let chunk_size = 2;
    let outcomes = vec![ChunkOutcome::Data {
        columns: columns(),
        rows: number_rows(0, 2),
    }];
    let (sink, state) = run_export(outcomes, chunk_size);
    assert!(!state.finished);
    assert_eq!(state.total, 2);
    assert_eq!(sink.records.len(), 2);
    assert_eq!(state.offset, chunk_size);
}

#[test]
fn step_writes_header_only_on_first_chunk() {
    let chunk_size = 2;
    let mut state = ExportState::new();
    let mut sink = RecordSink::new();

    let plan = export_step(
        &mut state,
        chunk_size,
        ChunkOutcome::Data {
            columns: columns(),
            rows: number_rows(0, 2),
        },
    );
    assert_eq!(plan.header, Some(columns()));
    sink.apply(plan);

    let plan = export_step(
        &mut state,
        chunk_size,
        ChunkOutcome::Data {
            columns: columns(),
            rows: number_rows(2, 2),
        },
    );
    assert_eq!(plan.header, None);
    assert_eq!(plan.rows, vec![vec!["2".to_string()], vec!["3".to_string()]]);
    sink.apply(plan);

    assert_eq!(sink.records.len(), 4);
    assert_eq!(state.total, 4);
    assert_eq!(state.offset, 4);
    assert!(!state.finished);
}

#[test]
fn zero_row_chunk_after_data_stops_without_advancing() {
    let chunk_size = 2;
    let mut state = ExportState::new();
    let mut sink = RecordSink::new();

    let plan = export_step(
        &mut state,
        chunk_size,
        ChunkOutcome::Data {
            columns: columns(),
            rows: number_rows(0, 2),
        },
    );
    sink.apply(plan);
    let plan = export_step(
        &mut state,
        chunk_size,
        ChunkOutcome::Data {
            columns: columns(),
            rows: Vec::new(),
        },
    );
    assert_eq!(plan.header, None);
    assert!(plan.rows.is_empty());
    sink.apply(plan);

    assert!(state.finished);
    assert_eq!(state.total, 2);
    assert_eq!(state.offset, chunk_size);
    assert_eq!(sink.records.len(), 2);
    assert_eq!(sink.header, Some(columns()));
}

#[test]
fn outcomes_after_the_final_chunk_are_not_consumed() {
    let chunk_size = 4;
    let outcomes = vec![
        ChunkOutcome::Data {
            columns: columns(),
            rows: number_rows(0, 3),
        },
        ChunkOutcome::Data {
            columns: columns(),
            rows: number_rows(100, 4),
        },
    ];
    let (sink, state) = run_export(outcomes, chunk_size);
    assert!(state.finished);
    assert_eq!(state.total, 3);
    assert_eq!(sink.records.len(), 3);
    assert_eq!(sink.records[2], vec!["2".to_string()]);
}

#[test]
fn export_rows_use_the_display_projection() {
    let outcomes = vec![ChunkOutcome::Data {
        columns: vec!["a".to_string(), "b".to_string()],
        rows: vec![vec![
            CellValue::Text("abc".to_string()),
            CellValue::Boolean(false),
        ]],
    }];
    let (sink, state) = run_export(outcomes, EXPORT_CHUNK_SIZE);
    assert_eq!(state.total, 1);
    assert_eq!(
        sink.records,
        vec![vec!["abc".to_string(), "false".to_string()]]
    );
}
