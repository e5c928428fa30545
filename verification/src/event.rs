//! Input event records: the fixed-size wire layout shared by the source
//! devices and the virtual output device.
//!
//! A kernel record on a 64-bit machine is 24 bytes: a 16-byte timestamp,
//! then the 16-bit class tag, the 16-bit code and the 32-bit signed value,
//! all little endian. Injected records carry a zeroed timestamp; decoding
//! ignores the timestamp of whatever record arrives.

use vstd::bytes::*;
use vstd::prelude::*;
use vstd::slice::*;

verus! {

/// Number of bytes in one kernel input event record; a read shorter than
/// this is noise and produces no event.
pub const EVENT_RECORD_SIZE: usize = 24;

/// One input event: the class tag (sync, key, relative motion, misc),
/// the code within the class, and the signed magnitude.
#[derive(Clone, Copy, Debug, PartialEq, Eq, Structural)]
pub struct InputEvent {
    pub ty: u16,
    pub code: u16,
    pub value: i32,
}

/// The 24 bytes of one event as they stand on the wire: a zeroed
/// timestamp, then type, code and value, little endian.
pub open spec fn event_bytes(ev: InputEvent) -> Seq<u8> {
    Seq::new(16, |i: int| 0u8) + spec_u16_to_le_bytes(ev.ty) + spec_u16_to_le_bytes(ev.code)
        + spec_u32_to_le_bytes(ev.value as u32)
}

/// The event held in a full record: bytes 16..24 carry the triple.
pub open spec fn decoded_event(data: Seq<u8>) -> InputEvent
    recommends
        data.len() >= EVENT_RECORD_SIZE,
{
    InputEvent {
        ty: spec_u16_from_le_bytes(data.subrange(16, 18)),
        code: spec_u16_from_le_bytes(data.subrange(18, 20)),
        value: spec_u32_from_le_bytes(data.subrange(20, 24)) as i32,
    }
}

/// Serializes one event into its exact 24-byte record.
pub fn encode_event(ev: &InputEvent) -> (r: Vec<u8>)
    ensures
        r@ == event_bytes(*ev),
        r@.len() == EVENT_RECORD_SIZE,
{
    let mut r: Vec<u8> = Vec::new();
    let mut i: usize = 0;
    while i < 16
        invariant
            i <= 16,
            r@.len() == i,
            forall|j: int| 0 <= j < i ==> r@[j] == 0u8,
        decreases 16 - i,
    {
        r.push(0u8);
        i = i + 1;
    }
    let mut ty_bytes = u16_to_le_bytes(ev.ty);
    r.append(&mut ty_bytes);
    let mut code_bytes = u16_to_le_bytes(ev.code);
    r.append(&mut code_bytes);
    let mut value_bytes = u32_to_le_bytes(#[verifier::truncate] (ev.value as u32));
    r.append(&mut value_bytes);
    proof {
        assert(r@ =~= event_bytes(*ev));
    }
    r
}

/// Decodes the bytes handed back by one read from a source device.
/// A short read yields no event; a full record yields the triple it holds.
pub fn decode_event(data: &Vec<u8>) -> (r: Option<InputEvent>)
    ensures
        r is Some <==> data@.len() >= EVENT_RECORD_SIZE,
        r matches Some(ev) ==> ev == decoded_event(data@),
{
    if data.len() < EVENT_RECORD_SIZE {
        return None;
    }
    let ty = u16_from_le_bytes(slice_subrange(data.as_slice(), 16, 18));
    let code = u16_from_le_bytes(slice_subrange(data.as_slice(), 18, 20));
    let value_raw = u32_from_le_bytes(slice_subrange(data.as_slice(), 20, 24));
    let value: i32 = #[verifier::truncate] (value_raw as i32);
    Some(InputEvent { ty, code, value })
}

/// The bytes of a whole injected stream: each event's record, in order,
/// with nothing inserted between records.
pub open spec fn stream_bytes(evs: Seq<InputEvent>) -> Seq<u8>
    decreases evs.len(),
{
    if evs.len() == 0 {
        Seq::empty()
    } else {
        stream_bytes(evs.drop_last()) + event_bytes(evs.last())
    }
}

/// Serializes a sequence of events into the byte stream their injection
/// produces.
pub fn encode_events(evs: &Vec<InputEvent>) -> (r: Vec<u8>)
    ensures
        r@ == stream_bytes(evs@),
{
    let mut r: Vec<u8> = Vec::new();
    let mut i: usize = 0;
    while i < evs.len()
        invariant
            i <= evs@.len(),
            r@ == stream_bytes(evs@.take(i as int)),
        decreases evs@.len() - i,
    {
        let mut record = encode_event(&evs[i]);
        r.append(&mut record);
        proof {
            assert(evs@.take(i + 1).drop_last() =~= evs@.take(i as int));
            assert(evs@.take(i + 1).last() == evs@[i as int]);
        }
        i = i + 1;
    }
    proof {
        assert(evs@.take(evs@.len() as int) =~= evs@);
    }
    r
}

/// A full record decodes back to exactly the event that was encoded:
/// the wire bytes carry the type, code and value unchanged.
pub proof fn lemma_event_round_trip(ev: InputEvent)
    ensures
        event_bytes(ev).len() == EVENT_RECORD_SIZE,
        decoded_event(event_bytes(ev)) == ev,
{
    lemma_auto_spec_u16_to_from_le_bytes();
    lemma_auto_spec_u32_to_from_le_bytes();
    let b = event_bytes(ev);
    assert(b.subrange(16, 18) =~= spec_u16_to_le_bytes(ev.ty));
    assert(b.subrange(18, 20) =~= spec_u16_to_le_bytes(ev.code));
    assert(b.subrange(20, 24) =~= spec_u32_to_le_bytes(ev.value as u32));
    let v = ev.value;
    assert(((v as u32) as i32) == v) by (bit_vector);
}

/// The stream is exactly 24 bytes per event.
pub proof fn lemma_stream_len(evs: Seq<InputEvent>)
    ensures
        stream_bytes(evs).len() == EVENT_RECORD_SIZE * evs.len(),
    decreases evs.len(),
{
    lemma_auto_spec_u16_to_from_le_bytes();
    lemma_auto_spec_u32_to_from_le_bytes();
    if evs.len() > 0 {
        lemma_stream_len(evs.drop_last());
    }
}

/// The stream keeps the order of injection: the k-th 24-byte slice of the
/// wire is the record of the k-th injected event, so no event is
/// reordered or merged with another.
pub proof fn lemma_stream_keeps_order(evs: Seq<InputEvent>, k: int)
    requires
        0 <= k < evs.len(),
    ensures
        stream_bytes(evs).subrange(
            EVENT_RECORD_SIZE * k,
            EVENT_RECORD_SIZE * k + EVENT_RECORD_SIZE,
        ) == event_bytes(evs[k]),
    decreases evs.len(),
{
    lemma_stream_len(evs);
    lemma_stream_len(evs.drop_last());
    if k == evs.len() - 1 {
        assert(stream_bytes(evs).subrange(
            EVENT_RECORD_SIZE * k,
            EVENT_RECORD_SIZE * k + EVENT_RECORD_SIZE,
        ) =~= event_bytes(evs[k]));
    } else {
        lemma_stream_keeps_order(evs.drop_last(), k);
        assert(stream_bytes(evs).subrange(
            EVENT_RECORD_SIZE * k,
            EVENT_RECORD_SIZE * k + EVENT_RECORD_SIZE,
        ) =~= stream_bytes(evs.drop_last()).subrange(
            EVENT_RECORD_SIZE * k,
            EVENT_RECORD_SIZE * k + EVENT_RECORD_SIZE,
        ));
    }
}

} // verus!
