use std::collections::HashMap;
use vstd::prelude::*;

verus! {

#[verifier::external_type_specification]
#[verifier::external_body]
pub struct ExJsonValue(serde_json::Value);

/// Name and element type of one column of a bucket.
#[derive(Debug, Clone)]
pub struct DataShape {
    pub name: String,
    pub data_type: String,
}

/// How the server lists its symbols.
#[derive(Debug, Clone, Copy, PartialEq, Eq, Structural)]
pub enum SymbolFormat {
    Symbol,
    TimeBucketKey,
}

/// The wire code of a symbol format.
pub open spec fn symbol_format_code(f: SymbolFormat) -> i32 {
    match f {
        SymbolFormat::Symbol => 0,
        SymbolFormat::TimeBucketKey => 1,
    }
}

impl From<SymbolFormat> for i32 {
    fn from(format: SymbolFormat) -> (r: i32)
        ensures
            r == symbol_format_code(format),
    {
        match format {
            SymbolFormat::Symbol => 0,
            SymbolFormat::TimeBucketKey => 1,
        }
    }
}

impl vstd::std_specs::convert::FromSpecImpl<SymbolFormat> for i32 {
    open spec fn obeys_from_spec() -> bool {
        true
    }

    open spec fn from_spec(format: SymbolFormat) -> i32 {
        symbol_format_code(format)
    }
}

/// A columnar dataset: one byte column per named, typed column.
#[derive(Debug, Clone)]
pub struct NumpyDataset {
    pub column_types: Vec<String>,
    pub column_names: Vec<String>,
    pub column_data: Vec<Vec<u8>>,
    pub length: i32,
}

impl Default for NumpyDataset {
    fn default() -> (r: NumpyDataset)
        ensures
            r.column_types@.len() == 0,
            r.column_names@.len() == 0,
            r.column_data@.len() == 0,
            r.length == 0,
    {
        NumpyDataset {
            column_types: Vec::new(),
            column_names: Vec::new(),
            column_data: Vec::new(),
            length: 0,
        }
    }
}

/// Several datasets packed into one: where each key starts and how many
/// rows it has.
#[derive(Debug, Clone)]
pub struct NumpyMultiDataset {
    pub data: Option<NumpyDataset>,
    pub start_index: HashMap<String, i32>,
    pub lengths: HashMap<String, i32>,
}

impl Default for NumpyMultiDataset {
    fn default() -> (r: NumpyMultiDataset)
        ensures
            r.data is None,
            r.start_index@ == Map::<String, i32>::empty(),
            r.lengths@ == Map::<String, i32>::empty(),
    {
        NumpyMultiDataset { data: None, start_index: HashMap::new(), lengths: HashMap::new() }
    }
}

/// One real-time update: the concrete stream it belongs to and its fields.
#[derive(Debug, Clone)]
pub struct StreamPayload {
    pub key: String,
    pub data: HashMap<String, serde_json::Value>,
}

/// The subscribe request, and the server's echo of it.
#[derive(Debug, Clone)]
pub struct SubscribeMessage {
    pub streams: Vec<String>,
}

/// An error notice from the server.
#[derive(Debug, Clone)]
pub struct ErrorMessage {
    pub error: String,
}

} // verus!
