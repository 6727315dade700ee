use influx_pager::cache::AppState;
use influx_pager::client::InfluxClient;
use influx_pager::client::QueryResponse;
use influx_pager::client::ResultEntry;
use influx_pager::client::ResultSeries;
use influx_pager::client::build_params;
use influx_pager::client::check_status;
use influx_pager::client::decode_response;
use influx_pager::client::first_string_cells;
use influx_pager::client::show_databases_statement;
use influx_pager::client::show_measurements_statement;
use influx_pager::error::QueryError;
use influx_pager::numfmt::usize_to_string;
use influx_pager::paginate::Cursor;
use influx_pager::paginate::INTERACTIVE_CHUNK_SIZE;
use influx_pager::paginate::apply_chunk;
use influx_pager::paginate::chunk_statement;
use influx_pager::paginate::is_final_chunk;
use influx_pager::value::CellValue;
use influx_pager::value::row_to_strings;
use influx_pager::value::value_to_string;

fn series_response(columns: Vec<&str>, values: Vec<Vec<CellValue>>) -> QueryResponse {
    QueryResponse {
        results: vec![ResultEntry {
            series: vec![ResultSeries {
                name: None,
                columns: columns.into_iter().map(String::from).collect(),
                values,
            }],
            error: None,
        }],
    }
}

#[test]
fn stringification_of_scalars() {
    assert_eq!(value_to_string(&CellValue::Text("abc".to_string())), "abc");
    assert_eq!(value_to_string(&CellValue::Number("42".to_string())), "42");
    assert_eq!(value_to_string(&CellValue::Boolean(true)), "true");
    assert_eq!(value_to_string(&CellValue::Boolean(false)), "false");
    assert_eq!(value_to_string(&CellValue::Null), "null");
    assert_eq!(
        value_to_string(&CellValue::Other("[1,2]".to_string())),
        "[1,2]"
    );
}

#[test]
fn stringification_of_a_row() {
    let row = vec![
        CellValue::Text("t1".to_string()),
        CellValue::Number("1.5".to_string()),
        CellValue::Null,
    ];
    assert_eq!(row_to_strings(&row), vec!["t1", "1.5", "null"]);
}

#[test]
fn decimal_rendering() {
    assert_eq!(usize_to_string(0), "0");
    assert_eq!(usize_to_string(7), "7");
    assert_eq!(usize_to_string(10), "10");
    assert_eq!(usize_to_string(3471), "3471");
    assert_eq!(usize_to_string(50000), "50000");
    assert_eq!(usize_to_string(usize::MAX), usize::MAX.to_string());
}

#[test]
fn client_endpoint_and_params() {
    let client = InfluxClient::new("localhost:8086".to_string(), None);
    assert_eq!(client.base_url, "http://localhost:8086");
    assert_eq!(client.query_url(), "http://localhost:8086/query");
    assert!(client.proxy.is_none());

    let params = build_params("SHOW DATABASES", &None);
    assert_eq!(params, vec![("q".to_string(), "SHOW DATABASES".to_string())]);
    let params = build_params("SELECT 1", &Some("db0".to_string()));
    assert_eq!(
        params,
        vec![
            ("q".to_string(), "SELECT 1".to_string()),
            ("db".to_string(), "db0".to_string()),
        ]
    );
}

#[test]
fn status_screening() {
    assert!(check_status(200, String::new()).is_ok());
    assert!(check_status(204, String::new()).is_ok());
    assert!(check_status(299, String::new()).is_ok());
    let err = check_status(404, "not found".to_string()).unwrap_err();
    assert!(matches!(err, QueryError::Transport(m) if m == "HTTP 404: not found"));
    let err = check_status(500, "boom".to_string()).unwrap_err();
    assert!(matches!(err, QueryError::Transport(m) if m == "HTTP 500: boom"));
}

#[test]
fn decode_first_series() {
    let resp = series_response(
        vec!["time", "v"],
        vec![
            vec![
                CellValue::Text("t1".to_string()),
                CellValue::Number("1".to_string()),
            ],
            vec![
                CellValue::Text("t2".to_string()),
                CellValue::Number("2".to_string()),
            ],
        ],
    );
    let (columns, rows) = decode_response(resp).unwrap().unwrap();
    assert_eq!(columns, vec!["time", "v"]);
    assert_eq!(
        rows,
        vec![
            vec![
                CellValue::Text("t1".to_string()),
                CellValue::Number("1".to_string()),
            ],
            vec![
                CellValue::Text("t2".to_string()),
                CellValue::Number("2".to_string()),
            ],
        ]
    );
}

#[test]
fn decode_server_error() {
    let resp = QueryResponse {
        results: vec![ResultEntry {
            series: Vec::new(),
            error: Some("bad syntax".to_string()),
        }],
    };
    let err = decode_response(resp).unwrap_err();
    assert!(matches!(err, QueryError::Database(m) if m == "bad syntax"));
}

#[test]
fn decode_no_data() {
    let none = decode_response(QueryResponse { results: Vec::new() }).unwrap();
    assert!(none.is_none());
    let none = decode_response(QueryResponse {
        results: vec![ResultEntry {
            series: Vec::new(),
            error: None,
        }],
    })
    .unwrap();
    assert!(none.is_none());
}

#[test]
fn decode_present_but_empty_series() {
    let resp = series_response(vec!["time", "v"], Vec::new());
    let (columns, rows) = decode_response(resp).unwrap().unwrap();
    assert_eq!(columns, vec!["time", "v"]);
    assert!(rows.is_empty());
}

#[test]
fn decode_consults_only_the_first_result_and_series() {
    let resp = QueryResponse {
        results: vec![
            ResultEntry {
                series: vec![
                    ResultSeries {
                        name: Some("a".to_string()),
                        columns: vec!["c1".to_string()],
                        values: vec![vec![CellValue::Number("1".to_string())]],
                    },
                    ResultSeries {
                        name: Some("b".to_string()),
                        columns: vec!["c2".to_string()],
                        values: Vec::new(),
                    },
                ],
                error: None,
            },
            ResultEntry {
                series: Vec::new(),
                error: Some("ignored".to_string()),
            },
        ],
    };
    let (columns, rows) = decode_response(resp).unwrap().unwrap();
    assert_eq!(columns, vec!["c1"]);
    assert_eq!(rows, vec![vec![CellValue::Number("1".to_string())]]);
}

#[test]
fn listing_names_skips_malformed_rows() {
    let rows = vec![
        vec![CellValue::Text("db0".to_string())],
        vec![CellValue::Number("3".to_string())],
        Vec::new(),
        vec![
            CellValue::Text("db1".to_string()),
            CellValue::Null,
        ],
    ];
    assert_eq!(first_string_cells(&rows), vec!["db0", "db1"]);
    assert_eq!(show_databases_statement(), "SHOW DATABASES");
    assert_eq!(show_measurements_statement(), "SHOW MEASUREMENTS");
}

#[test]
fn chunk_statement_text() {
    assert_eq!(
        chunk_statement("cpu", INTERACTIVE_CHUNK_SIZE, 0),
        "SELECT * FROM \"cpu\" LIMIT 10000 OFFSET 0"
    );
    assert_eq!(
        chunk_statement("disk usage", 50000, 150000),
        "SELECT * FROM \"disk usage\" LIMIT 50000 OFFSET 150000"
    );
}

#[test]
fn full_chunk_means_keep_paginating() {
    assert!(!is_final_chunk(10000, 10000));
}

#[test]
fn short_chunk_is_final() {
    assert!(is_final_chunk(3471, 10000));
    assert!(is_final_chunk(0, 10000));
}

#[test]
fn cursor_advances_by_actual_rows() {
    let mut cursor = Cursor::new();
    cursor.advance(10000);
    cursor.advance(10000);
    cursor.advance(3471);
    assert_eq!(cursor.offset, 23471);
    assert_eq!(cursor.total_rows, 23471);
}

#[test]
fn fresh_state_is_empty_and_ready() {
    let state = AppState::default();
    assert_eq!(state.status, "Ready");
    assert!(!state.is_loading);
    assert_eq!(state.offset, 0);
    assert!(state.current_data.is_empty());
    assert!(state.current_data_strings.is_empty());
    assert!(state.client.is_none());
}

#[test]
fn replace_then_append_keeps_strings_in_lockstep() {
    let mut state = AppState::default();
    let first = vec![
        vec![CellValue::Text("a".to_string()), CellValue::Number("1".to_string())],
        vec![CellValue::Text("b".to_string()), CellValue::Number("2".to_string())],
    ];
    state.update_data(vec!["k".to_string(), "v".to_string()], first.clone());
    state.extend_data(vec![vec![CellValue::Text("c".to_string()), CellValue::Null]]);
    state.extend_data(vec![vec![
        CellValue::Boolean(true),
        CellValue::Other("{}".to_string()),
    ]]);

    assert_eq!(state.current_columns, vec!["k", "v"]);
    assert_eq!(state.current_data.len(), 4);
    assert_eq!(&state.current_data[..2], &first[..]);
    assert_eq!(
        state.current_data_strings,
        vec![
            vec!["a".to_string(), "1".to_string()],
            vec!["b".to_string(), "2".to_string()],
            vec!["c".to_string(), "null".to_string()],
            vec!["true".to_string(), "{}".to_string()],
        ]
    );
}

#[test]
fn selection_resets_cursor_and_cache() {
    let mut state = AppState::default();
    state.update_data(
        vec!["k".to_string()],
        vec![vec![CellValue::Number("1".to_string())]],
    );
    state.offset = 1;
    state.select_measurement("cpu".to_string());
    assert_eq!(state.selected_measurement.as_deref(), Some("cpu"));
    assert_eq!(state.offset, 0);
    assert!(state.current_data.is_empty());
    assert!(state.current_data_strings.is_empty());
}

#[test]
fn interactive_chunks_replace_then_extend() {
    let mut state = AppState::default();
    let columns = vec!["v".to_string()];
    let chunk1: Vec<Vec<CellValue>> = (0..4)
        .map(|i| vec![CellValue::Number(i.to_string())])
        .collect();
    apply_chunk(&mut state, 0, columns.clone(), chunk1);
    assert_eq!(state.offset, 4);
    assert_eq!(state.current_data.len(), 4);

    let chunk2 = vec![vec![CellValue::Number("4".to_string())]];
    apply_chunk(&mut state, 4, columns, chunk2);
    assert_eq!(state.offset, 5);
    assert_eq!(state.current_data.len(), 5);
    assert_eq!(state.current_data_strings[4], vec!["4".to_string()]);
}
