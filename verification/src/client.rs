//! The query client's pure side: where queries are sent, how the request is
//! assembled, and how one tabular response is decoded. The surrounding
//! application performs the HTTP round trip and hands the decoded JSON shape
//! back as plain values.

use vstd::prelude::*;
use vstd::string::StringExecFns;

use crate::error::QueryError;
use crate::numfmt::dec_rep;
use crate::numfmt::usize_to_string;
use crate::value::CellValue;

verus! {

/// Where queries are sent: a base URL built from the host once per connect,
/// and the proxy the session was configured with (the transport applies it;
/// a malformed proxy falls back silently to none). Immutable once built.
#[derive(Debug, Clone)]
pub struct InfluxClient {
    /// Scheme and host, e.g. `http://example:8086`.
    pub base_url: String,
    /// Optional forward proxy URL, exactly as given at construction.
    pub proxy: Option<String>,
}

impl InfluxClient {
    /// Builds the endpoint for a host, prefixing the plain HTTP scheme.
    pub fn new(host: String, proxy: Option<String>) -> (r: InfluxClient)
        ensures
            r.base_url@ == "http://"@ + host@,
            r.proxy == proxy,
    {
        let mut base = String::from_str("http://");
        base.append(host.as_str());
        InfluxClient { base_url: base, proxy }
    }

    /// The URL of the query endpoint.
    pub fn query_url(&self) -> (r: String)
        ensures
            r@ == self.base_url@ + "/query"@,
    {
        let mut u = self.base_url.clone();
        u.append("/query");
        u
    }
}

/// Assembles the request's query parameters: the statement under `q`,
/// and the database under `db` when one is given.
pub fn build_params(statement: &str, database: &Option<String>) -> (r: Vec<(String, String)>)
    ensures
        r@.len() == if database is Some { 2int } else { 1int },
        r@[0].0@ == "q"@,
        r@[0].1@ == statement@,
        database matches Some(db) ==> r@[1].0@ == "db"@ && r@[1].1@ == db@,
{
    let mut r: Vec<(String, String)> = Vec::new();
    r.push((String::from_str("q"), statement.to_owned()));
    match database {
        Some(db) => {
            r.push((String::from_str("db"), db.clone()));
        },
        None => {},
    }
    r
}

/// A status is successful exactly when it lies in the 2xx range.
pub open spec fn is_success_status(status: u16) -> bool {
    200 <= status < 300
}

/// Screens the HTTP status of a response before its body is decoded: a
/// non-2xx status is a transport error carrying the status code and the
/// response body text.
pub fn check_status(status: u16, body: String) -> (r: Result<(), QueryError>)
    ensures
        r is Ok <==> is_success_status(status),
        !is_success_status(status) ==> (r matches Err(e)
            && e matches QueryError::Transport(m)
            && m@ == "HTTP "@ + dec_rep(status as nat) + ": "@ + body@),
{
    if 200 <= status && status < 300 {
        Ok(())
    } else {
        let mut m = String::from_str("HTTP ");
        let code = usize_to_string(status as usize);
        m.append(code.as_str());
        m.append(": ");
        m.append(body.as_str());
        Err(QueryError::Transport(m))
    }
}

/// One named, column-and-rows result set within a query response.
pub struct ResultSeries {
    /// The series name, when the server sends one.
    pub name: Option<String>,
    /// Column names, order significant.
    pub columns: Vec<String>,
    /// Rows, each an ordered sequence of scalar values. Row width is assumed,
    /// not enforced, to equal the header length; consumers must tolerate
    /// short or long rows defensively.
    pub values: Vec<Vec<CellValue>>,
}

/// One result of a (possibly multi-statement) query: its series, and the
/// server's own error text when the statement failed.
pub struct ResultEntry {
    /// The series of this result; may be absent.
    pub series: Vec<ResultSeries>,
    /// The server's reported error for this statement, if any.
    pub error: Option<String>,
}

/// The decoded shape of a whole query response body.
pub struct QueryResponse {
    /// One entry per statement.
    pub results: Vec<ResultEntry>,
}

/// What `decode_response` owes for a given response: only the first result
/// and, within it, the first series are consulted; further results and
/// series are deliberately ignored. A first result carrying an error text
/// fails with that text as a database error; no first result, or no series in
/// it, is "no data"; otherwise the first series' columns and rows come back.
pub open spec fn decode_spec(
    resp: QueryResponse,
    r: Result<Option<(Vec<String>, Vec<Vec<CellValue>>)>, QueryError>,
) -> bool {
    let results = resp.results@;
    if results.len() == 0 {
        r matches Ok(o) && o is None
    } else if results[0].error is Some {
        r matches Err(e) && e matches QueryError::Database(m) && m == results[0].error->0
    } else if results[0].series@.len() == 0 {
        r matches Ok(o) && o is None
    } else {
        r matches Ok(o) && o matches Some(p)
            && p.0 == results[0].series@[0].columns
            && p.1 == results[0].series@[0].values
    }
}

/// Decodes one response into columns and rows, the server's reported error,
/// or "no data".
pub fn decode_response(resp: QueryResponse) -> (r: Result<
    Option<(Vec<String>, Vec<Vec<CellValue>>)>,
    QueryError,
>)
    ensures
        decode_spec(resp, r),
{
    let mut results = resp.results;
    if results.len() == 0 {
        return Ok(None);
    }
    let first = results.remove(0);
    let mut series = first.series;
    match first.error {
        Some(err) => Err(QueryError::Database(err)),
        None => {
            if series.len() == 0 {
                Ok(None)
            } else {
                let s0 = series.remove(0);
                Ok(Some((s0.columns, s0.values)))
            }
        },
    }
}

/// The views of a sequence of strings.
pub open spec fn str_views(s: Seq<String>) -> Seq<Seq<char>> {
    s.map_values(|x: String| x@)
}

/// The first cell of every row whose first cell is a string value, in row
/// order; rows that are empty or whose first cell is not a string are
/// silently skipped. This is how database and measurement listings are read
/// out of `SHOW ...` results.
pub open spec fn first_text_cells(rows: Seq<Vec<CellValue>>) -> Seq<Seq<char>>
    decreases rows.len(),
{
    if rows.len() == 0 {
        Seq::empty()
    } else {
        first_text_cells(rows.drop_last()) + (if rows.last()@.len() > 0 && rows.last()@[0] is Text {
            seq![rows.last()@[0]->Text_0@]
        } else {
            Seq::<Seq<char>>::empty()
        })
    }
}

/// Extracts the names carried in the first string cell of each row.
pub fn first_string_cells(rows: &Vec<Vec<CellValue>>) -> (r: Vec<String>)
    ensures
        str_views(r@) == first_text_cells(rows@),
{
    let mut r: Vec<String> = Vec::new();
    let mut i: usize = 0;
    proof {
        assert(rows@.take(0int) =~= Seq::<Vec<CellValue>>::empty());
        assert(str_views(r@) =~~= first_text_cells(rows@.take(0int)));
    }
    while i < rows.len()
        invariant
            i <= rows.len(),
            str_views(r@) == first_text_cells(rows@.take(i as int)),
        decreases rows.len() - i,
    {
        let ghost pre = r@;
        let row = &rows[i];
        if row.len() > 0 {
            match &row[0] {
                CellValue::Text(s) => {
                    r.push(s.clone());
                },
                _ => {},
            }
        }
        proof {
            let taken = rows@.take(i + 1int);
            assert(taken.drop_last() =~= rows@.take(i as int));
            assert(taken.last() == rows@[i as int]);
            if rows@[i as int]@.len() > 0 && rows@[i as int]@[0] is Text {
                assert(str_views(r@) =~~= first_text_cells(rows@.take(i as int))
                    + seq![rows@[i as int]@[0]->Text_0@]);
            } else {
                assert(r@ == pre);
                assert(str_views(r@) =~~= first_text_cells(rows@.take(i as int))
                    + Seq::<Seq<char>>::empty());
            }
        }
        i = i + 1;
    }
    proof {
        assert(rows@.take(rows@.len() as int) =~= rows@);
    }
    r
}

/// The statement that lists the server's databases.
pub fn show_databases_statement() -> (r: &'static str)
    ensures
        r@ == "SHOW DATABASES"@,
{
    "SHOW DATABASES"
}

/// The statement that lists one database's measurements.
pub fn show_measurements_statement() -> (r: &'static str)
    ensures
        r@ == "SHOW MEASUREMENTS"@,
{
    "SHOW MEASUREMENTS"
}

} // verus!
