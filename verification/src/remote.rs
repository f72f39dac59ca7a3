//! The core of the remote stream client: building the wire requests for the
//! three per-stream calls, and decoding the server-pushed wire batches back
//! into events.
//!
//! The network itself is not here: an unverified shell issues the calls and
//! drives the server-pushed sequence, handing every message to
//! [`Stream::decode_read_message`].  Everything that decides what a request
//! holds and what a received batch means is verified.

use vstd::prelude::*;

use crate::error::JournalError;
use crate::error::error_from_status;
use crate::event::Event;
use crate::timestamp::Timestamp;
use crate::timestamp::decoded;
use crate::timestamp::spec_serialize;

verus! {

/// The wire request that opens a read: the stream's name and the encoded
/// position to read from.
pub struct ReadEventsRequest {
    pub stream: String,
    pub ts: Vec<u8>,
}

/// The wire request of one append: the stream's name, the encoded position
/// and the payload.
pub struct AppendEventRequest {
    pub stream: String,
    pub ts: Vec<u8>,
    pub data: Vec<u8>,
}

/// The wire request of one release: the stream's name and the encoded
/// position up to which events may be discarded.
pub struct ReleaseEventsRequest {
    pub stream: String,
    pub ts: Vec<u8>,
}

/// One event as it crosses the wire: encoded position plus payload.
pub struct WireEvent {
    pub ts: Vec<u8>,
    pub data: Vec<u8>,
}

/// One server-pushed message of a read: a batch of wire events.
pub struct ReadEventsResponse {
    pub events: Vec<WireEvent>,
}

/// Whether every event of a wire batch carries a well-formed encoded
/// position.
pub open spec fn batch_well_formed(events: Seq<WireEvent>) -> bool {
    forall|i: int| 0 <= i < events.len() ==> (#[trigger] events[i]).ts@.len() == 8
}

/// What a well-formed wire batch decodes to, read from position `from`: each
/// event's position decoded and its payload passed through, keeping exactly
/// the events at or after `from`, in wire order.
pub open spec fn spec_decode_batch(from: u64, events: Seq<WireEvent>) -> Seq<(u64, Seq<u8>)> {
    events.map(|i: int, w: WireEvent| (decoded(w.ts@), w.data@)).filter(
        |e: (u64, Seq<u8>)| e.0 >= from,
    )
}

/// The views of a sequence of decoded events, in order.
pub open spec fn views_of(events: Seq<Event>) -> Seq<(u64, Seq<u8>)> {
    events.map(|i: int, e: Event| e@)
}

/// A handle on one named stream of the journal.  The handle itself holds
/// only the name; the connection that carries its requests lives outside the
/// verified library.
#[derive(Clone, Debug)]
pub struct Stream {
    stream: String,
}

impl Stream {
    /// The name of the stream this handle is bound to.
    pub closed spec fn spec_name(&self) -> Seq<char> {
        self.stream@
    }

    /// A handle bound to the stream called `stream`.
    pub fn new(stream: String) -> (r: Stream)
        ensures
            r.spec_name() == stream@,
    {
        Stream { stream }
    }

    /// The stream's name.
    pub fn name(&self) -> (r: &String)
        ensures
            r@ == self.spec_name(),
    {
        &self.stream
    }

    /// The request that opens a read of this stream from position `ts`.
    pub fn read_request(&self, ts: Timestamp) -> (r: ReadEventsRequest)
        ensures
            r.stream@ == self.spec_name(),
            r.ts@ == spec_serialize(ts),
    {
        ReadEventsRequest { stream: self.stream.clone(), ts: ts.serialize() }
    }

    /// The request that appends `event` to this stream.
    pub fn append_request(&self, event: Event) -> (r: AppendEventRequest)
        ensures
            r.stream@ == self.spec_name(),
            r.ts@ == spec_serialize(event.ts),
            r.data@ == event.data@,
    {
        AppendEventRequest {
            stream: self.stream.clone(),
            ts: event.ts.serialize(),
            data: event.data,
        }
    }

    /// The request that releases this stream's events up to `ts`.
    pub fn release_request(&self, ts: Timestamp) -> (r: ReleaseEventsRequest)
        ensures
            r.stream@ == self.spec_name(),
            r.ts@ == spec_serialize(ts),
    {
        ReleaseEventsRequest { stream: self.stream.clone(), ts: ts.serialize() }
    }
}

/// Decode one wire batch of a read opened at `from`.  If every event's
/// position decodes, the result holds exactly the events at or after `from`,
/// decoded in wire order; if any position is malformed, the whole batch is
/// rejected with `MalformedTimestamp` rather than silently skipped.
pub fn decode_batch(from: Timestamp, resp: ReadEventsResponse) -> (r: Result<Vec<Event>, JournalError>)
    ensures
        batch_well_formed(resp.events@) ==> (r matches Ok(events) && views_of(events@)
            == spec_decode_batch(from.value, resp.events@)),
        !batch_well_formed(resp.events@) ==> r == Err::<Vec<Event>, JournalError>(
            JournalError::MalformedTimestamp,
        ),
{
    let mut out: Vec<Event> = Vec::new();
    let mut i: usize = 0;
    proof {
        reveal(Seq::filter);
        assert(views_of(out@) =~= spec_decode_batch(from.value, resp.events@.take(0)));
    }
    while i < resp.events.len()
        invariant
            0 <= i <= resp.events.len(),
            batch_well_formed(resp.events@.take(i as int)),
            views_of(out@) == spec_decode_batch(from.value, resp.events@.take(i as int)),
        decreases resp.events.len() - i,
    {
        let w = &resp.events[i];
        let ghost prefix = resp.events@.take(i as int);
        match Timestamp::deserialize(w.ts.as_slice()) {
            Ok(ts) => {
                proof {
                    assert(resp.events@.take(i + 1) =~= prefix.push(resp.events@[i as int]));
                    lemma_decode_batch_push(from.value, prefix, resp.events@[i as int]);
                }
                if ts.value >= from.value {
                    let data = w.data.clone();
                    proof {
                        assert(data@ =~= w.data@);
                    }
                    out.push(Event { ts, data });
                    proof {
                        assert(views_of(out@) =~= spec_decode_batch(
                            from.value,
                            resp.events@.take(i + 1),
                        ));
                    }
                } else {
                    proof {
                        assert(views_of(out@) =~= spec_decode_batch(
                            from.value,
                            resp.events@.take(i + 1),
                        ));
                    }
                }
            },
            Err(_) => {
                proof {
                    assert(resp.events@[i as int].ts@.len() != 8);
                    assert(!batch_well_formed(resp.events@));
                }
                return Err(JournalError::MalformedTimestamp);
            },
        }
        i = i + 1;
    }
    proof {
        assert(resp.events@.take(resp.events@.len() as int) =~= resp.events@);
    }
    Ok(out)
}

/// Unfolds one step of [`spec_decode_batch`]: decoding a batch extended by
/// one well-formed event appends that event's view exactly when its position
/// is at or after `from`.
proof fn lemma_decode_batch_push(from: u64, events: Seq<WireEvent>, w: WireEvent)
    ensures
        decoded(w.ts@) >= from ==> spec_decode_batch(from, events.push(w)) == spec_decode_batch(
            from,
            events,
        ).push((decoded(w.ts@), w.data@)),
        decoded(w.ts@) < from ==> spec_decode_batch(from, events.push(w)) == spec_decode_batch(
            from,
            events,
        ),
{
    let f = |i: int, w: WireEvent| (decoded(w.ts@), w.data@);
    let mapped = events.map(f);
    let mapped_push = events.push(w).map(f);
    assert(mapped_push =~= mapped.push((decoded(w.ts@), w.data@)));
    reveal(Seq::filter);
    assert(mapped_push.drop_last() =~= mapped);
}

/// Every event a decoded batch yields sits at or after the position the read
/// was opened from: the decoder never hands back an event below `from`.
pub proof fn lemma_decoded_events_not_below(from: u64, events: Seq<WireEvent>)
    ensures
        forall|i: int|
            0 <= i < spec_decode_batch(from, events).len() ==> (#[trigger] spec_decode_batch(
                from,
                events,
            )[i]).0 >= from,
{
    let pred = |e: (u64, Seq<u8>)| e.0 >= from;
    let mapped = events.map(|i: int, w: WireEvent| (decoded(w.ts@), w.data@));
    assert forall|i: int| 0 <= i < spec_decode_batch(from, events).len() implies (
    #[trigger] spec_decode_batch(from, events)[i]).0 >= from by {
        mapped.lemma_filter_pred(pred, i);
    }
}

/// Handle one message of the server-pushed sequence of a read opened at
/// `from`: a batch is decoded, a transport fault is mapped into a domain
/// error, and either way the outcome is explicit, never silently dropped.
pub fn decode_read_message(from: Timestamp, msg: Result<ReadEventsResponse, tonic::Status>) -> (r:
    Result<Vec<Event>, JournalError>)
    ensures
        msg matches Ok(resp) ==> {
            &&& batch_well_formed(resp.events@) ==> (r matches Ok(events) && views_of(events@)
                == spec_decode_batch(from.value, resp.events@))
            &&& !batch_well_formed(resp.events@) ==> r == Err::<Vec<Event>, JournalError>(
                JournalError::MalformedTimestamp,
            )
        },
        msg is Err ==> (r matches Err(e) && (e matches JournalError::TransportFailure { .. }
            || e matches JournalError::RequestRejected { .. })),
{
    match msg {
        Ok(resp) => decode_batch(from, resp),
        Err(status) => Err(error_from_status(status)),
    }
}

} // verus!
