use vstd::prelude::*;

use crate::errors::ServerError;
use crate::json::api_rows;
use crate::json::cell_text;
use crate::json::cells_view;
use crate::json::extract_api_rows;
use crate::time::rfc3339_seconds;
use crate::time::parse_rfc3339_seconds;

verus! {

/// One cell of a worker row. The pool reports each worker as an array of
/// mixed JSON values; the monitor only ever asks whether a cell is a string
/// and, if so, what its text is.
pub enum WorkerField {
    /// The cell is a JSON string with this text.
    Text(String),
    /// The cell is something other than a string.
    Other,
}

impl View for WorkerField {
    type V = Option<Seq<char>>;

    open spec fn view(&self) -> Option<Seq<char>> {
        match self {
            WorkerField::Text(s) => Some(s@),
            WorkerField::Other => None,
        }
    }
}

/// The pool API response, reduced to what the staleness decision reads:
/// the worker rows. The hash-rate field is checked for presence and shape
/// during parsing but plays no further part.
pub struct APIResponse {
    pub workers: Vec<Vec<WorkerField>>,
}

/// What a scan of the worker list concludes.
pub enum Verdict {
    /// The matched worker shared recently enough.
    Online,
    /// The matched worker is stale, or no row matched the name at all.
    Offline,
    /// A row the scan had to read was malformed: a name cell that is not a
    /// string, a matched row with fewer than seven cells, a last-share cell
    /// that is not a string or not an RFC 3339 timestamp, or a share
    /// timestamp that lies in the future.
    DataFault,
}

/// The worker rows as mathematical sequences: each cell is the text of its
/// string, or `None` where the cell is not a string.
pub open spec fn rows_view(workers: Seq<Vec<WorkerField>>) -> Seq<Seq<Option<Seq<char>>>> {
    workers.map_values(|row: Vec<WorkerField>| row@.map_values(|f: WorkerField| f@))
}

/// What the matched row decides, given the offline threshold in minutes
/// and the current time in seconds since the Unix epoch. The row must have
/// at least seven cells; cell six must name an RFC 3339 instant that does
/// not lie in the future; the worker is offline exactly when the last
/// share is more than `threshold_minutes` old.
pub open spec fn row_verdict(row: Seq<Option<Seq<char>>>, threshold_minutes: u64, now: i64) -> Verdict {
    if row.len() < 7 {
        Verdict::DataFault
    } else {
        match row[6] {
            None => Verdict::DataFault,
            Some(stamp) => match rfc3339_seconds(stamp) {
                None => Verdict::DataFault,
                Some(t) => if now - t < 0 {
                    Verdict::DataFault
                } else if now - t > threshold_minutes * 60 {
                    Verdict::Offline
                } else {
                    Verdict::Online
                },
            },
        }
    }
}

/// The scan of the worker list, in list order: the first row whose name
/// cell equals `name` decides; a row whose name cell is missing or not a
/// string stops the scan as malformed; a list without a match is offline.
pub open spec fn scan_verdict(
    rows: Seq<Seq<Option<Seq<char>>>>,
    name: Seq<char>,
    threshold_minutes: u64,
    now: i64,
) -> Verdict
    decreases rows.len(),
{
    if rows.len() == 0 {
        Verdict::Offline
    } else if rows[0].len() == 0 {
        Verdict::DataFault
    } else {
        match rows[0][0] {
            None => Verdict::DataFault,
            Some(n) => if n == name {
                row_verdict(rows[0], threshold_minutes, now)
            } else {
                scan_verdict(rows.drop_first(), name, threshold_minutes, now)
            },
        }
    }
}

/// A parse failure with the given diagnostic text.
fn parse_error(msg: &str) -> (e: ServerError)
    ensures
        e is ParseError,
{
    ServerError::ParseError(msg.to_string())
}

/// Decide whether the named worker is online from the parsed worker rows,
/// the offline threshold in minutes, and the current time in seconds since
/// the Unix epoch.
///
/// An empty worker list is an error. An absent worker is offline, not an
/// error. A malformed row read during the scan is a parse error, and so is
/// a matched share timestamp that lies in the future.
pub fn evaluate_workers(
    workers: &Vec<Vec<WorkerField>>,
    worker_name: &str,
    offline_threshold_minutes: u64,
    now: i64,
) -> (r: Result<bool, ServerError>)
    ensures
        workers@.len() == 0 <==> r == Err::<bool, ServerError>(ServerError::NoWorkers),
        workers@.len() > 0 ==> match scan_verdict(
            rows_view(workers@),
            worker_name@,
            offline_threshold_minutes,
            now,
        ) {
            Verdict::Online => r == Ok::<bool, ServerError>(true),
            Verdict::Offline => r == Ok::<bool, ServerError>(false),
            Verdict::DataFault => r matches Err(e) && e is ParseError,
        },
{
    if workers.len() == 0 {
        return Err(ServerError::NoWorkers);
    }
    let target: String = worker_name.to_string();
    proof {
        assert(rows_view(workers@).skip(0) =~= rows_view(workers@));
    }
    let n = workers.len();
    for i in 0..n
        invariant
            n == workers@.len(),
            target@ == worker_name@,
            scan_verdict(rows_view(workers@), worker_name@, offline_threshold_minutes, now)
                == scan_verdict(
                    rows_view(workers@).skip(i as int),
                    worker_name@,
                    offline_threshold_minutes,
                    now,
                ),
    {
        proof {
            let rs = rows_view(workers@);
            assert(rs.skip(i as int)[0] == rs[i as int]);
            assert(rs[i as int] == workers@[i as int]@.map_values(|f: WorkerField| f@));
        }
        let row = &workers[i];
        if row.len() == 0 {
            return Err(parse_error("worker row is empty"));
        }
        let matched: bool = match &row[0] {
            WorkerField::Other => {
                return Err(parse_error("worker name should be a string"));
            },
            WorkerField::Text(cell) => cell.eq(&target),
        };
        if matched {
            if row.len() < 7 {
                return Err(parse_error("worker row has fewer than seven fields"));
            }
            match &row[6] {
                WorkerField::Other => {
                    return Err(parse_error("worker last submitted share should be a string"));
                },
                WorkerField::Text(stamp) => {
                    match parse_rfc3339_seconds(stamp.as_str()) {
                        None => {
                            return Err(parse_error(
                                "failed to parse worker last submitted share as a datetime",
                            ));
                        },
                        Some(t) => {
                            let delta: i128 = now as i128 - t as i128;
                            if delta < 0 {
                                return Err(parse_error("worker share timestamp lies in the future"));
                            }
                            if delta > offline_threshold_minutes as i128 * 60 {
                                return Ok(false);
                            }
                            return Ok(true);
                        },
                    }
                },
            }
        }
        proof {
            let rs = rows_view(workers@);
            assert(rs.skip(i as int).drop_first() =~= rs.skip(i as int + 1));
        }
    }
    Ok(false)
}

/// Parse the pool API body: a JSON object with a numeric hash-rate field
/// and a worker list holding an array of arrays. The parse succeeds, with
/// exactly the rows the body names, when the body has that shape; a body
/// of any other shape is a parse error.
pub fn parse_api_body(body: &str) -> (r: Result<APIResponse, ServerError>)
    ensures
        r is Err <==> api_rows(body@) is None,
        r matches Err(e) ==> e is ParseError,
        r matches Ok(resp) ==> api_rows(body@) == Some(rows_view(resp.workers@)),
{
    let rows = match extract_api_rows(body) {
        Some(rows) => rows,
        None => {
            return Err(parse_error("response body does not have the expected shape"));
        },
    };
    let mut workers: Vec<Vec<WorkerField>> = Vec::new();
    let n = rows.len();
    for i in 0..n
        invariant
            n == rows@.len(),
            workers@.len() == i,
            rows_view(workers@) =~= cells_view(rows@).take(i as int),
    {
        let row = &rows[i];
        let mut fields: Vec<WorkerField> = Vec::new();
        let m = row.len();
        for j in 0..m
            invariant
                m == row@.len(),
                fields@.len() == j,
                fields@.map_values(|f: WorkerField| f@) =~= row@.map_values(
                    |c: Option<String>| cell_text(c),
                ).take(j as int),
        {
            match &row[j] {
                Some(s) => fields.push(WorkerField::Text(s.clone())),
                None => fields.push(WorkerField::Other),
            }
            proof {
                assert(fields@.map_values(|f: WorkerField| f@) =~= row@.map_values(
                    |c: Option<String>| cell_text(c),
                ).take(j as int + 1));
            }
        }
        proof {
            assert(fields@.map_values(|f: WorkerField| f@) =~= row@.map_values(
                |c: Option<String>| cell_text(c),
            ));
        }
        workers.push(fields);
        proof {
            assert(rows_view(workers@) =~= cells_view(rows@).take(i as int + 1));
        }
    }
    proof {
        assert(cells_view(rows@).take(n as int) =~= cells_view(rows@));
    }
    Ok(APIResponse { workers })
}

/// The scan passes over a leading stretch of rows whose name cells are
/// strings other than the name sought.
proof fn lemma_scan_skips_unmatched(
    rows: Seq<Seq<Option<Seq<char>>>>,
    name: Seq<char>,
    threshold_minutes: u64,
    now: i64,
    j: int,
)
    requires
        0 <= j <= rows.len(),
        forall|i: int| 0 <= i < j ==> (#[trigger] rows[i]).len() >= 1 && rows[i][0] is Some
            && rows[i][0]->0 != name,
    ensures
        scan_verdict(rows, name, threshold_minutes, now) == scan_verdict(
            rows.skip(j),
            name,
            threshold_minutes,
            now,
        ),
    decreases j,
{
    if j == 0 {
        assert(rows.skip(0) =~= rows);
    } else {
        lemma_scan_skips_unmatched(rows, name, threshold_minutes, now, j - 1);
        assert(rows.skip(j - 1)[0] == rows[j - 1]);
        assert(rows.skip(j - 1).drop_first() =~= rows.skip(j));
    }
}

/// Law: when the sought worker is found — the rows before it name other
/// workers — with a parseable share timestamp that does not lie in the
/// future, the threshold alone decides: online exactly when the share is
/// at most `threshold_minutes` minutes old, offline when it is older.
pub proof fn lemma_threshold_decides(
    rows: Seq<Seq<Option<Seq<char>>>>,
    name: Seq<char>,
    threshold_minutes: u64,
    now: i64,
    j: int,
    t: i64,
)
    requires
        0 <= j < rows.len(),
        forall|i: int| 0 <= i < j ==> (#[trigger] rows[i]).len() >= 1 && rows[i][0] is Some
            && rows[i][0]->0 != name,
        rows[j].len() >= 7,
        rows[j][0] == Some(name),
        rows[j][6] is Some,
        rfc3339_seconds(rows[j][6]->0) == Some(t),
        now - t >= 0,
    ensures
        scan_verdict(rows, name, threshold_minutes, now) == (if now - t > threshold_minutes * 60 {
            Verdict::Offline
        } else {
            Verdict::Online
        }),
{
    lemma_scan_skips_unmatched(rows, name, threshold_minutes, now, j);
    assert(rows.skip(j)[0] == rows[j]);
}

/// Law: a worker list that does not contain the sought name — every row
/// names some other worker — is offline, not an error.
pub proof fn lemma_unknown_worker_offline(
    rows: Seq<Seq<Option<Seq<char>>>>,
    name: Seq<char>,
    threshold_minutes: u64,
    now: i64,
)
    requires
        forall|i: int| 0 <= i < rows.len() ==> (#[trigger] rows[i]).len() >= 1
            && rows[i][0] is Some && rows[i][0]->0 != name,
    ensures
        scan_verdict(rows, name, threshold_minutes, now) == Verdict::Offline,
{
    lemma_scan_skips_unmatched(rows, name, threshold_minutes, now, rows.len() as int);
    assert(rows.skip(rows.len() as int).len() == 0);
}

/// Law: a matched worker whose share timestamp lies in the future is a
/// data fault, which `evaluate_workers` reports as a parse error rather
/// than clamping it.
pub proof fn lemma_future_share_rejected(
    rows: Seq<Seq<Option<Seq<char>>>>,
    name: Seq<char>,
    threshold_minutes: u64,
    now: i64,
    j: int,
    t: i64,
)
    requires
        0 <= j < rows.len(),
        forall|i: int| 0 <= i < j ==> (#[trigger] rows[i]).len() >= 1 && rows[i][0] is Some
            && rows[i][0]->0 != name,
        rows[j].len() >= 7,
        rows[j][0] == Some(name),
        rows[j][6] is Some,
        rfc3339_seconds(rows[j][6]->0) == Some(t),
        now - t < 0,
    ensures
        scan_verdict(rows, name, threshold_minutes, now) == Verdict::DataFault,
{
    lemma_scan_skips_unmatched(rows, name, threshold_minutes, now, j);
    assert(rows.skip(j)[0] == rows[j]);
}

/// Determine the named worker's status from the raw response body: parse
/// the body, then scan the worker list as `evaluate_workers` does, against
/// the offline threshold in minutes and the current time in seconds since
/// the Unix epoch.
///
/// A body of the wrong shape is a parse error; a well-shaped body with no
/// workers at all is `NoWorkers`; otherwise the scan of the body's rows
/// decides exactly. This layer never reports a transport failure; that is
/// the caller's to add.
pub fn fetch_status_from_body(
    body: &str,
    worker_name: &str,
    offline_threshold_minutes: u64,
    now: i64,
) -> (r: Result<bool, ServerError>)
    ensures
        r matches Err(e) ==> e is ParseError || e is NoWorkers,
        api_rows(body@) is None ==> (r matches Err(e) && e is ParseError),
        api_rows(body@) matches Some(rows) ==> (if rows.len() == 0 {
            r == Err::<bool, ServerError>(ServerError::NoWorkers)
        } else {
            match scan_verdict(rows, worker_name@, offline_threshold_minutes, now) {
                Verdict::Online => r == Ok::<bool, ServerError>(true),
                Verdict::Offline => r == Ok::<bool, ServerError>(false),
                Verdict::DataFault => r matches Err(e) && e is ParseError,
            }
        }),
{
    match parse_api_body(body) {
        Ok(response) => evaluate_workers(
            &response.workers,
            worker_name,
            offline_threshold_minutes,
            now,
        ),
        Err(e) => Err(e),
    }
}

} // verus!
