use vstd::prelude::*;

verus! {

#[verifier::external_type_specification]
#[verifier::external_body]
pub struct ExStatus(tonic::Status);

#[verifier::external_type_specification]
#[verifier::external_body]
pub struct ExTransportError(tonic::transport::Error);

/// Every failure the client reports.
#[derive(Debug)]
pub enum MarketStoreError {
    Grpc(tonic::Status),
    WebSocket(String),
    Transport(tonic::transport::Error),
    Serialization(String),
    InvalidData(String),
    Connection(String),
    Timeout(String),
    Protocol(String),
}

pub type Result<T> = core::result::Result<T, MarketStoreError>;

/// Relies on `Display` for `tonic::Status`; nothing is assumed of the text.
#[verifier::external_body]
fn status_text(s: &tonic::Status) -> String {
    s.to_string()
}

/// Relies on `Display` for `tonic::transport::Error`; nothing is assumed of the text.
#[verifier::external_body]
fn transport_text(e: &tonic::transport::Error) -> String {
    e.to_string()
}

/// The label that starts the rendering of each kind of error.
pub open spec fn error_prefix(e: &MarketStoreError) -> Seq<char> {
    match e {
        MarketStoreError::Grpc(_) => "gRPC error: "@,
        MarketStoreError::WebSocket(_) => "WebSocket error: "@,
        MarketStoreError::Transport(_) => "Transport error: "@,
        MarketStoreError::Serialization(_) => "Serialization error: "@,
        MarketStoreError::InvalidData(_) => "Invalid data: "@,
        MarketStoreError::Connection(_) => "Connection error: "@,
        MarketStoreError::Timeout(_) => "Timeout error: "@,
        MarketStoreError::Protocol(_) => "Protocol error: "@,
    }
}

impl MarketStoreError {
    /// Human-readable text of the error: its label followed by its message.
    pub fn to_string(&self) -> (r: String)
        ensures
            r@.len() >= error_prefix(self).len(),
            r@.subrange(0, error_prefix(self).len() as int) == error_prefix(self),
            match self {
                MarketStoreError::Grpc(_) | MarketStoreError::Transport(_) => true,
                MarketStoreError::WebSocket(m) | MarketStoreError::Serialization(m)
                | MarketStoreError::InvalidData(m) | MarketStoreError::Connection(m)
                | MarketStoreError::Timeout(m) | MarketStoreError::Protocol(m) => r@
                    == error_prefix(self) + m@,
            },
    {
        let (label, text) = match self {
            MarketStoreError::Grpc(s) => ("gRPC error: ", status_text(s)),
            MarketStoreError::WebSocket(m) => ("WebSocket error: ", m.clone()),
            MarketStoreError::Transport(t) => ("Transport error: ", transport_text(t)),
            MarketStoreError::Serialization(m) => ("Serialization error: ", m.clone()),
            MarketStoreError::InvalidData(m) => ("Invalid data: ", m.clone()),
            MarketStoreError::Connection(m) => ("Connection error: ", m.clone()),
            MarketStoreError::Timeout(m) => ("Timeout error: ", m.clone()),
            MarketStoreError::Protocol(m) => ("Protocol error: ", m.clone()),
        };
        let r = String::from_str(label).concat(text.as_str());
        proof {
            assert(r@.subrange(0, error_prefix(self).len() as int) =~= error_prefix(self));
        }
        r
    }
}

impl From<tonic::Status> for MarketStoreError {
    fn from(s: tonic::Status) -> (r: MarketStoreError)
        ensures
            r == MarketStoreError::Grpc(s),
    {
        MarketStoreError::Grpc(s)
    }
}

impl vstd::std_specs::convert::FromSpecImpl<tonic::Status> for MarketStoreError {
    open spec fn obeys_from_spec() -> bool {
        true
    }

    open spec fn from_spec(s: tonic::Status) -> MarketStoreError {
        MarketStoreError::Grpc(s)
    }
}

impl From<tonic::transport::Error> for MarketStoreError {
    fn from(e: tonic::transport::Error) -> (r: MarketStoreError)
        ensures
            r == MarketStoreError::Transport(e),
    {
        MarketStoreError::Transport(e)
    }
}

impl vstd::std_specs::convert::FromSpecImpl<tonic::transport::Error> for MarketStoreError {
    open spec fn obeys_from_spec() -> bool {
        true
    }

    open spec fn from_spec(e: tonic::transport::Error) -> MarketStoreError {
        MarketStoreError::Transport(e)
    }
}

} // verus!
