use vstd::prelude::*;

use crate::text::{decimal, decimal_string};
use vstd::string::StringExecFns;

verus! {

/// No time was measured, so no throughput can be computed.
#[derive(Debug, Clone, Copy, PartialEq, Eq, Structural)]
pub struct ZeroElapsed;

/// The queries made per elapsed millisecond, rounded down.
pub fn throughput(query_count: u64, elapsed_ms: u64) -> (r: Result<u64, ZeroElapsed>)
    ensures
        r is Err <==> elapsed_ms == 0,
        r matches Ok(t) ==> t == query_count / elapsed_ms,
{
    if elapsed_ms == 0 {
        Err(ZeroElapsed)
    } else {
        Ok(query_count / elapsed_ms)
    }
}

/// The outcome of a finished run.
#[derive(Debug, Clone, Copy, PartialEq, Eq, Structural)]
pub struct Report {
    pub query_count: u64,
    pub elapsed_ms: u64,
    /// Queries per millisecond, rounded down, though the report's label
    /// calls them queries per second.
    pub throughput: u64,
}

/// The report of a run that made `query_count` queries in `elapsed_ms`
/// milliseconds.
pub fn report(query_count: u64, elapsed_ms: u64) -> (r: Result<Report, ZeroElapsed>)
    ensures
        r is Err <==> elapsed_ms == 0,
        r matches Ok(rep) ==> rep.query_count == query_count && rep.elapsed_ms == elapsed_ms
            && rep.throughput == query_count / elapsed_ms,
{
    match throughput(query_count, elapsed_ms) {
        Ok(t) => Ok(Report { query_count, elapsed_ms, throughput: t }),
        Err(e) => Err(e),
    }
}

/// The three lines of a report, in the order they are printed.
pub open spec fn report_text(rep: Report) -> Seq<Seq<char>> {
    seq![
        "query count: "@ + decimal(rep.query_count as nat),
        "time cost: "@ + decimal(rep.elapsed_ms as nat) + " ms"@,
        "qps: "@ + decimal(rep.throughput as nat),
    ]
}

impl Report {
    /// The query count, the elapsed time and the throughput, one line each.
    pub fn lines(&self) -> (r: Vec<String>)
        ensures
            r@.len() == 3,
            forall|i: int| 0 <= i < 3 ==> #[trigger] r@[i]@ == report_text(*self)[i],
    {
        let mut count = String::from_str("query count: ");
        let c = decimal_string(self.query_count);
        count.append(c.as_str());
        let mut time = String::from_str("time cost: ");
        let e = decimal_string(self.elapsed_ms);
        time.append(e.as_str());
        time.append(" ms");
        let mut qps = String::from_str("qps: ");
        let t = decimal_string(self.throughput);
        qps.append(t.as_str());
        let mut out: Vec<String> = Vec::new();
        out.push(count);
        out.push(time);
        out.push(qps);
        out
    }
}

} // verus!
