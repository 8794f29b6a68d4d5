use crate::error::{MarketStoreError, Result};
use crate::models::DataShape;
use vstd::prelude::*;

verus! {

/// The key of a bucket: `<symbol>/<timeframe>/<attribute-group>`.
pub open spec fn key_of(symbol: Seq<char>, timeframe: Seq<char>, attr_group: Seq<char>) -> Seq<
    char,
> {
    symbol + "/"@ + timeframe + "/"@ + attr_group
}

/// Joins the three parts of a bucket key.
pub fn bucket_key(symbol: &str, timeframe: &str, attr_group: &str) -> (r: String)
    ensures
        r@ == key_of(symbol@, timeframe@, attr_group@),
{
    String::from_str(symbol).concat("/").concat(timeframe).concat("/").concat(attr_group)
}

/// A query for one bucket over an optional time range.
#[derive(Debug, Clone)]
pub struct QueryRequest {
    pub destination: String,
    pub epoch_start: Option<i64>,
    pub epoch_end: Option<i64>,
    pub limit_record_count: Option<i32>,
    pub limit_from_start: bool,
    pub columns: Vec<String>,
}

impl QueryRequest {
    /// A builder with nothing set.
    pub fn builder() -> (r: QueryRequestBuilder)
        ensures
            r.is_empty(),
    {
        QueryRequestBuilder::default()
    }
}

/// Collects the parts of a `QueryRequest`; symbol, timeframe and attribute
/// group are required.
#[derive(Debug)]
pub struct QueryRequestBuilder {
    pub symbol: Option<String>,
    pub timeframe: Option<String>,
    pub attr_group: Option<String>,
    pub start_time: Option<i64>,
    pub end_time: Option<i64>,
    pub limit: Option<i32>,
    pub columns: Vec<String>,
}

impl Default for QueryRequestBuilder {
    fn default() -> (r: QueryRequestBuilder)
        ensures
            r.is_empty(),
    {
        QueryRequestBuilder {
            symbol: None,
            timeframe: None,
            attr_group: None,
            start_time: None,
            end_time: None,
            limit: None,
            columns: Vec::new(),
        }
    }
}

impl QueryRequestBuilder {
    /// Nothing has been set.
    pub open spec fn is_empty(&self) -> bool {
        &&& self.symbol is None
        &&& self.timeframe is None
        &&& self.attr_group is None
        &&& self.start_time is None
        &&& self.end_time is None
        &&& self.limit is None
        &&& self.columns@.len() == 0
    }

    /// Every field but `changed` is the same in `self` and `other`.
    pub open spec fn same_except(&self, other: &QueryRequestBuilder, changed: int) -> bool {
        &&& (changed != 0 ==> self.symbol == other.symbol)
        &&& (changed != 1 ==> self.timeframe == other.timeframe)
        &&& (changed != 2 ==> self.attr_group == other.attr_group)
        &&& (changed != 3 ==> self.start_time == other.start_time)
        &&& (changed != 4 ==> self.end_time == other.end_time)
        &&& (changed != 5 ==> self.limit == other.limit)
        &&& (changed != 6 ==> self.columns == other.columns)
    }

    pub fn symbol(self, symbol: &str) -> (r: Self)
        ensures
            r.symbol matches Some(s) && s@ == symbol@,
            r.same_except(&self, 0),
    {
        QueryRequestBuilder { symbol: Some(String::from_str(symbol)), ..self }
    }

    pub fn timeframe(self, timeframe: &str) -> (r: Self)
        ensures
            r.timeframe matches Some(s) && s@ == timeframe@,
            r.same_except(&self, 1),
    {
        QueryRequestBuilder { timeframe: Some(String::from_str(timeframe)), ..self }
    }

    pub fn attr_group(self, attr_group: &str) -> (r: Self)
        ensures
            r.attr_group matches Some(s) && s@ == attr_group@,
            r.same_except(&self, 2),
    {
        QueryRequestBuilder { attr_group: Some(String::from_str(attr_group)), ..self }
    }

    pub fn start_time(self, start_time: i64) -> (r: Self)
        ensures
            r.start_time == Some(start_time),
            r.same_except(&self, 3),
    {
        QueryRequestBuilder { start_time: Some(start_time), ..self }
    }

    pub fn end_time(self, end_time: i64) -> (r: Self)
        ensures
            r.end_time == Some(end_time),
            r.same_except(&self, 4),
    {
        QueryRequestBuilder { end_time: Some(end_time), ..self }
    }

    pub fn limit(self, limit: i32) -> (r: Self)
        ensures
            r.limit == Some(limit),
            r.same_except(&self, 5),
    {
        QueryRequestBuilder { limit: Some(limit), ..self }
    }

    pub fn columns(self, columns: Vec<String>) -> (r: Self)
        ensures
            r.columns == columns,
            r.same_except(&self, 6),
    {
        QueryRequestBuilder { columns, ..self }
    }

    /// Builds the request, or names the first required part that is missing.
    pub fn build(self) -> (r: Result<QueryRequest>)
        ensures
            self.symbol is None ==> (r matches Err(MarketStoreError::InvalidData(m)) && m@
                == "Symbol is required"@),
            self.symbol is Some && self.timeframe is None ==> (r matches Err(
                MarketStoreError::InvalidData(m),
            ) && m@ == "Timeframe is required"@),
            self.symbol is Some && self.timeframe is Some && self.attr_group is None ==> (r matches Err(
                MarketStoreError::InvalidData(m),
            ) && m@ == "Attribute group is required"@),
            self.symbol is Some && self.timeframe is Some && self.attr_group is Some ==> (r matches Ok(
                q,
            ) && q.destination@ == key_of(
                self.symbol->0@,
                self.timeframe->0@,
                self.attr_group->0@,
            ) && q.epoch_start == self.start_time && q.epoch_end == self.end_time
                && q.limit_record_count == self.limit && !q.limit_from_start && q.columns
                == self.columns),
    {
        let symbol = match self.symbol {
            Some(s) => s,
            None => {
                return Err(MarketStoreError::InvalidData(String::from_str("Symbol is required")));
            },
        };
        let timeframe = match self.timeframe {
            Some(t) => t,
            None => {
                return Err(
                    MarketStoreError::InvalidData(String::from_str("Timeframe is required")),
                );
            },
        };
        let attr_group = match self.attr_group {
            Some(a) => a,
            None => {
                return Err(
                    MarketStoreError::InvalidData(String::from_str("Attribute group is required")),
                );
            },
        };
        Ok(
            QueryRequest {
                destination: bucket_key(symbol.as_str(), timeframe.as_str(), attr_group.as_str()),
                epoch_start: self.start_time,
                epoch_end: self.end_time,
                limit_record_count: self.limit,
                limit_from_start: false,
                columns: self.columns,
            },
        )
    }
}

/// Creation of a bucket with the given columns.
#[derive(Debug, Clone)]
pub struct CreateRequest {
    pub symbol: String,
    pub timeframe: String,
    pub attr_group: String,
    pub data_shapes: Vec<DataShape>,
}

impl CreateRequest {
    pub fn new(symbol: &str, timeframe: &str, attr_group: &str, data_shapes: Vec<DataShape>) -> (r:
        Self)
        ensures
            r.symbol@ == symbol@,
            r.timeframe@ == timeframe@,
            r.attr_group@ == attr_group@,
            r.data_shapes == data_shapes,
    {
        CreateRequest {
            symbol: String::from_str(symbol),
            timeframe: String::from_str(timeframe),
            attr_group: String::from_str(attr_group),
            data_shapes,
        }
    }
}

/// Removal of a bucket.
#[derive(Debug, Clone)]
pub struct DestroyRequest {
    pub symbol: String,
    pub timeframe: String,
    pub attr_group: String,
}

impl DestroyRequest {
    pub fn new(symbol: &str, timeframe: &str, attr_group: &str) -> (r: Self)
        ensures
            r.symbol@ == symbol@,
            r.timeframe@ == timeframe@,
            r.attr_group@ == attr_group@,
    {
        DestroyRequest {
            symbol: String::from_str(symbol),
            timeframe: String::from_str(timeframe),
            attr_group: String::from_str(attr_group),
        }
    }
}

/// An ordered list of stream patterns; duplicates are kept.
#[derive(Debug, Clone)]
pub struct StreamSubscription {
    pub streams: Vec<String>,
}

impl StreamSubscription {
    pub fn new() -> (r: Self)
        ensures
            r.streams@.len() == 0,
    {
        StreamSubscription { streams: Vec::new() }
    }

    /// Appends one pattern.
    pub fn add_stream(self, stream: &str) -> (r: Self)
        ensures
            r.streams@.len() == self.streams@.len() + 1,
            r.streams@.drop_last() == self.streams@,
            r.streams@.last()@ == stream@,
    {
        let mut streams = self.streams;
        streams.push(String::from_str(stream));
        proof {
            assert(streams@.drop_last() =~= self.streams@);
        }
        StreamSubscription { streams }
    }

    /// Appends several patterns, in order.
    pub fn add_streams(self, streams: Vec<String>) -> (r: Self)
        ensures
            r.streams@ == self.streams@ + streams@,
    {
        let mut all = self.streams;
        let mut more = streams;
        all.append(&mut more);
        StreamSubscription { streams: all }
    }
}

} // verus!
