use crate::error::{MarketStoreError, Result};
use crate::models::NumpyMultiDataset;
use crate::requests::{key_of, QueryRequest};
use vstd::prelude::*;

verus! {

/// Lower epoch bound of a query that names none.
pub const DEFAULT_EPOCH_START: i64 = 0;

/// Upper epoch bound of a query that names none (the largest `i64`).
pub const DEFAULT_EPOCH_END: i64 = 9223372036854775807;

/// Row limit of a query that names none.
pub const DEFAULT_LIMIT: i32 = 1000;

pub open spec fn or_default<T>(o: Option<T>, d: T) -> T {
    match o {
        Some(v) => v,
        None => d,
    }
}

/// The request of a single query: the range and limit that are not given
/// take their defaults.
pub fn query_request(
    symbol: &str,
    timeframe: &str,
    attr_group: &str,
    start_time: Option<i64>,
    end_time: Option<i64>,
    limit: Option<i32>,
) -> (r: Result<QueryRequest>)
    ensures
        r matches Ok(q) && q.destination@ == key_of(symbol@, timeframe@, attr_group@)
            && q.epoch_start == Some(or_default(start_time, DEFAULT_EPOCH_START)) && q.epoch_end
            == Some(or_default(end_time, DEFAULT_EPOCH_END)) && q.limit_record_count == Some(
            or_default(limit, DEFAULT_LIMIT),
        ) && !q.limit_from_start && q.columns@.len() == 0,
{
    let start = match start_time {
        Some(t) => t,
        None => DEFAULT_EPOCH_START,
    };
    let end = match end_time {
        Some(t) => t,
        None => DEFAULT_EPOCH_END,
    };
    let rows = match limit {
        Some(n) => n,
        None => DEFAULT_LIMIT,
    };
    QueryRequest::builder().symbol(symbol).timeframe(timeframe).attr_group(attr_group).start_time(
        start,
    ).end_time(end).limit(rows).build()
}

/// The requests of a batch of queries, one per `(symbol, timeframe,
/// attribute group)`, in order, with no range and no limit.
pub fn batch_requests(queries: &Vec<(String, String, String)>) -> (r: Vec<QueryRequest>)
    ensures
        r@.len() == queries@.len(),
        forall|i: int|
            0 <= i < queries@.len() ==> {
                let q = #[trigger] r@[i];
                &&& q.destination@ == key_of(queries@[i].0@, queries@[i].1@, queries@[i].2@)
                &&& q.epoch_start is None
                &&& q.epoch_end is None
                &&& q.limit_record_count is None
                &&& !q.limit_from_start
            },
{
    let mut out: Vec<QueryRequest> = Vec::new();
    let mut i: usize = 0;
    while i < queries.len()
        invariant
            i <= queries@.len(),
            out@.len() == i,
            forall|j: int|
                0 <= j < i ==> {
                    let q = #[trigger] out@[j];
                    &&& q.destination@ == key_of(queries@[j].0@, queries@[j].1@, queries@[j].2@)
                    &&& q.epoch_start is None
                    &&& q.epoch_end is None
                    &&& q.limit_record_count is None
                    &&& !q.limit_from_start
                },
        decreases queries@.len() - i,
    {
        let (symbol, timeframe, attr_group) = &queries[i];
        let built = QueryRequest::builder().symbol(symbol.as_str()).timeframe(
            timeframe.as_str(),
        ).attr_group(attr_group.as_str()).build();
        match built {
            Ok(q) => out.push(q),
            Err(_) => {},
        }
        i = i + 1;
    }
    out
}

/// A query as it goes over the wire: every bound is explicit.
#[derive(Debug, Clone)]
pub struct WireQuery {
    pub destination: String,
    pub epoch_start: i64,
    pub epoch_end: i64,
    pub limit_record_count: i32,
    pub limit_from_start: bool,
    pub columns: Vec<String>,
}

/// Fills in the defaults of the bounds that `request` leaves open.
pub fn wire_query(request: QueryRequest) -> (r: WireQuery)
    ensures
        r.destination == request.destination,
        r.epoch_start == or_default(request.epoch_start, DEFAULT_EPOCH_START),
        r.epoch_end == or_default(request.epoch_end, DEFAULT_EPOCH_END),
        r.limit_record_count == or_default(request.limit_record_count, DEFAULT_LIMIT),
        r.limit_from_start == request.limit_from_start,
        r.columns == request.columns,
{
    WireQuery {
        destination: request.destination,
        epoch_start: match request.epoch_start {
            Some(t) => t,
            None => DEFAULT_EPOCH_START,
        },
        epoch_end: match request.epoch_end {
            Some(t) => t,
            None => DEFAULT_EPOCH_END,
        },
        limit_record_count: match request.limit_record_count {
            Some(n) => n,
            None => DEFAULT_LIMIT,
        },
        limit_from_start: request.limit_from_start,
        columns: request.columns,
    }
}

/// The dataset of the first response of a query; an empty answer and a first
/// response without a dataset are errors.
pub fn first_dataset(responses: Vec<Option<NumpyMultiDataset>>) -> (r: Result<NumpyMultiDataset>)
    ensures
        responses@.len() == 0 ==> (r matches Err(MarketStoreError::InvalidData(m)) && m@
            == "Empty response"@),
        responses@.len() > 0 && responses@[0] is None ==> (r matches Err(
            MarketStoreError::InvalidData(m),
        ) && m@ == "Empty dataset"@),
        responses@.len() > 0 && responses@[0] is Some ==> r == Ok::<
            NumpyMultiDataset,
            MarketStoreError,
        >(responses@[0]->0),
{
    let mut all = responses;
    if all.len() == 0 {
        return Err(MarketStoreError::InvalidData(String::from_str("Empty response")));
    }
    match all.remove(0) {
        Some(dataset) => Ok(dataset),
        None => Err(MarketStoreError::InvalidData(String::from_str("Empty dataset"))),
    }
}

} // verus!
