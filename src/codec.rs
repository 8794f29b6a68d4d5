use crate::error::{MarketStoreError, Result};
use crate::models::{ErrorMessage, StreamPayload, SubscribeMessage};
use vstd::prelude::*;

verus! {

/// The patterns of a subscription, as character sequences.
pub open spec fn pattern_views(streams: Seq<String>) -> Seq<Seq<char>> {
    streams.map_values(|s: String| s@)
}

/// The MessagePack bytes of a subscribe message naming `patterns`, in order.
pub uninterp spec fn msgpack_subscribe(patterns: Seq<Seq<char>>) -> Seq<u8>;

/// Relies on `rmp_serde::to_vec`: with its default configuration a record of
/// one field is written as a MessagePack array of one element, so the bytes of
/// `(streams,)` are those of the subscribe message, and they depend on the
/// patterns alone. Writing into a `Vec` fails only when memory cannot be
/// reserved, so the call succeeds.
#[verifier::external_body]
fn pack_streams(streams: &Vec<String>) -> (r: core::result::Result<Vec<u8>, String>)
    ensures
        r is Ok,
        r is Ok ==> r->Ok_0@ == msgpack_subscribe(pattern_views(streams@)),
{
    match rmp_serde::to_vec(&(streams,)) {
        Ok(bytes) => Ok(bytes),
        Err(e) => Err(e.to_string()),
    }
}

/// Encodes the subscribe frame: one binary frame naming every pattern, in
/// order, duplicates kept.
pub fn encode_subscribe(message: &SubscribeMessage) -> (r: Result<Vec<u8>>)
    ensures
        r is Ok,
        match r {
            Ok(bytes) => bytes@ == msgpack_subscribe(pattern_views(message.streams@)),
            Err(e) => e is Serialization,
        },
{
    match pack_streams(&message.streams) {
        Ok(bytes) => Ok(bytes),
        Err(text) => Err(MarketStoreError::Serialization(text)),
    }
}

/// What an inbound binary frame turned out to be.
#[derive(Debug, Clone)]
pub enum Decoded {
    DataPayload(StreamPayload),
    SubscribeEcho(SubscribeMessage),
    ErrorNotice(ErrorMessage),
    Undecodable,
}

/// Classifies a binary frame from its decodings as each known shape (`None`
/// where the frame is not of that shape). The first shape that decodes wins,
/// in the order data payload, subscribe echo, error notice.
pub fn classify(
    payload: Option<StreamPayload>,
    echo: Option<SubscribeMessage>,
    notice: Option<ErrorMessage>,
) -> (r: Decoded)
    ensures
        payload is Some ==> r == Decoded::DataPayload(payload->0),
        payload is None && echo is Some ==> r == Decoded::SubscribeEcho(echo->0),
        payload is None && echo is None && notice is Some ==> r == Decoded::ErrorNotice(
            notice->0,
        ),
        payload is None && echo is None && notice is None ==> r is Undecodable,
{
    match payload {
        Some(p) => Decoded::DataPayload(p),
        None => match echo {
            Some(m) => Decoded::SubscribeEcho(m),
            None => match notice {
                Some(n) => Decoded::ErrorNotice(n),
                None => Decoded::Undecodable,
            },
        },
    }
}

} // verus!
