//! One poll cycle: four readings fetched together, one message built from
//! them.
//!
//! The cycle is fail-fast: the four requests are issued together and all of
//! them complete; where any of them fails, no message is built and the cycle
//! is abandoned, to be tried again at the next interval.
use vstd::prelude::*;

use crate::message::{MessageView, SolboxMessage};
use crate::session::StoreAction;
use crate::sorel::{
    cookie_header_spec, relay_result, reply_invalidates, sensor_result, value_url_spec,
    with_session, FetchError, Sorel, TransportFailure, ValueReply, ValueRequest,
};

verus! {

/// The requests of one cycle.
pub struct CycleRequests {
    pub sensor1: ValueRequest,
    pub sensor2: ValueRequest,
    pub sensor3: ValueRequest,
    pub relay1: ValueRequest,
}

/// The replies to the requests of one cycle.
pub struct CycleReplies {
    pub sensor1: Result<ValueReply, TransportFailure>,
    pub sensor2: Result<ValueReply, TransportFailure>,
    pub sensor3: Result<ValueReply, TransportFailure>,
    pub relay1: Result<ValueReply, TransportFailure>,
}

/// What a cycle ends with: the message to publish, or the first failure;
/// and what is asked of the session storage.
pub struct CycleOutcome {
    pub message: Result<SolboxMessage, FetchError>,
    pub store: StoreAction,
}

/// The readings of a cycle, or its first failure in the order sensor1,
/// sensor2, sensor3, relay1.
pub open spec fn cycle_result(r: CycleReplies) -> Result<MessageView, FetchError> {
    match (sensor_result(r.sensor1), sensor_result(r.sensor2), sensor_result(r.sensor3), relay_result(r.relay1)) {
        (Ok(s1), Ok(s2), Ok(s3), Ok(r1)) => Ok(MessageView { sensor1: s1, sensor2: s2, sensor3: s3, relay1: r1 }),
        (Err(e), _, _, _) => Err(e),
        (_, Err(e), _, _) => Err(e),
        (_, _, Err(e), _) => Err(e),
        (_, _, _, Err(e)) => Err(e),
    }
}

/// Whether any reply of a cycle shows that the session is no longer accepted.
pub open spec fn cycle_invalidates(r: CycleReplies) -> bool {
    reply_invalidates(r.sensor1) || reply_invalidates(r.sensor2) || reply_invalidates(r.sensor3)
        || reply_invalidates(r.relay1)
}

/// The requests for the readings of one cycle.
pub fn cycle_requests(client: &Sorel) -> (r: CycleRequests)
    ensures
        r.sensor1.url@ == value_url_spec(client@, "sensor1"@),
        r.sensor2.url@ == value_url_spec(client@, "sensor2"@),
        r.sensor3.url@ == value_url_spec(client@, "sensor3"@),
        r.relay1.url@ == value_url_spec(client@, "relay1"@),
        r.sensor1.cookie@ == cookie_header_spec(client@),
        r.sensor2.cookie@ == cookie_header_spec(client@),
        r.sensor3.cookie@ == cookie_header_spec(client@),
        r.relay1.cookie@ == cookie_header_spec(client@),
{
    CycleRequests {
        sensor1: client.value_request("sensor1"),
        sensor2: client.value_request("sensor2"),
        sensor3: client.value_request("sensor3"),
        relay1: client.value_request("relay1"),
    }
}

fn merge(a: StoreAction, b: StoreAction) -> (r: StoreAction)
    requires
        a is Keep || a is Remove,
        b is Keep || b is Remove,
    ensures
        r is Keep || r is Remove,
        r is Remove <==> (a is Remove || b is Remove),
{
    match (a, b) {
        (StoreAction::Keep, StoreAction::Keep) => StoreAction::Keep,
        _ => StoreAction::Remove,
    }
}

/// Completes a cycle with its replies: a message where all four readings
/// decode, else the first failure; the session is dropped, and its persisted
/// copy is to be removed, where any reply shows it is no longer accepted.
pub fn poll_cycle(client: &mut Sorel, replies: CycleReplies) -> (r: CycleOutcome)
    ensures
        cycle_result(replies) matches Ok(m) ==> r.message matches Ok(msg) && msg@ == m,
        cycle_result(replies) matches Err(e) ==> r.message matches Err(x) && x == e,
        cycle_invalidates(replies) ==> r.store is Remove,
        !cycle_invalidates(replies) ==> r.store is Keep,
        final(client)@ == (if cycle_invalidates(replies) {
            with_session(old(client)@, Seq::empty())
        } else {
            old(client)@
        }),
{
    let (s1, a1) = client.sensor_reading(replies.sensor1);
    let (s2, a2) = client.sensor_reading(replies.sensor2);
    let (s3, a3) = client.sensor_reading(replies.sensor3);
    let (r1, a4) = client.relay_reading(replies.relay1);
    let store = merge(merge(a1, a2), merge(a3, a4));
    let message = match (s1, s2, s3, r1) {
        (Ok(v1), Ok(v2), Ok(v3), Ok(v4)) => Ok(SolboxMessage::new(v1, v2, v3, v4)),
        (Err(e), _, _, _) => Err(e),
        (_, Err(e), _, _) => Err(e),
        (_, _, Err(e), _) => Err(e),
        (_, _, _, Err(e)) => Err(e),
    };
    CycleOutcome { message, store }
}

/// A cycle in which any reading fails yields no message to publish.
pub proof fn lemma_failed_cycle_publishes_nothing(replies: CycleReplies)
    requires
        sensor_result(replies.sensor1) is Err || sensor_result(replies.sensor2) is Err
            || sensor_result(replies.sensor3) is Err || relay_result(replies.relay1) is Err,
    ensures
        cycle_result(replies) is Err,
{
}

} // verus!
