//! The dispatch path a native callback runs: normalize the raw record
//! and deliver the result through the global callback slot.
//!
//! This is the whole per-event pipeline. The platform trampoline only
//! reduces its native arguments to a [`RawRecord`], takes the keyboard
//! state's lock, and calls [`dispatch`]; everything it decides happens
//! here. Unrecognized records are dropped without touching the slot,
//! and an empty slot swallows the event — both silently, by design.

use vstd::prelude::*;
use crate::events::{Event, EventType, Timestamp};
use crate::keyboard::{opt_name_view, KeyboardState};
use crate::normalize::{decode_spec, name_after_spec, normalize, state_after_spec, RawRecord};
use crate::slot::{CallbackSlot, EventSink};

verus! {

/// Relies on `std::time::SystemTime::now` and
/// `SystemTime::duration_since`: the current time, as milliseconds
/// since the Unix epoch. Nothing is promised of the value — the clock
/// is not a function of the program's state.
#[verifier::external_body]
fn now_millis() -> (t: u64) {
    match std::time::SystemTime::now().duration_since(std::time::UNIX_EPOCH) {
        Ok(d) => d.as_millis() as u64,
        Err(_) => 0,
    }
}

/// The current time as a [`Timestamp`].
pub fn now() -> (t: Timestamp) {
    Timestamp { millis: now_millis() }
}

/// Dispatch one raw record at a given timestamp: advance the keyboard
/// state, and — when the record decodes and a sink is armed — deliver
/// exactly the normalized event. The slot is untouched when the record
/// is unrecognized, and untouched (a no-op) when it is empty.
pub fn dispatch_at<S: EventSink>(
    raw: RawRecord,
    state: &mut KeyboardState,
    slot: &mut CallbackSlot<S>,
    time: Timestamp,
)
    ensures
        *final(state) == state_after_spec(*old(state), raw),
        final(slot).armed() == old(slot).armed(),
        match decode_spec(raw) {
            Some(event_type) => if old(slot).armed() {
                &&& final(slot).invocation_count() == old(slot).invocation_count() + 1
                &&& final(slot).sink_log().len() == old(slot).sink_log().len() + 1
                &&& final(slot).sink_log().last().event_type == event_type
                &&& final(slot).sink_log().last().time == time
                &&& opt_name_view(final(slot).sink_log().last().name) == name_after_spec(
                    *old(state),
                    raw,
                )
                &&& final(slot).sink_log().drop_last() == old(slot).sink_log()
            } else {
                *final(slot) == *old(slot)
            },
            None => *final(slot) == *old(slot),
        },
{
    match normalize(raw, state, time) {
        Some(event) => {
            slot.invoke(event);
        }
        None => {}
    }
}

/// Dispatch one raw record at the current time. This is what a
/// platform trampoline calls once per native callback invocation: the
/// delivered event's type and name are exactly the normalized ones;
/// its timestamp is whatever the clock read at dispatch.
pub fn dispatch<S: EventSink>(
    raw: RawRecord,
    state: &mut KeyboardState,
    slot: &mut CallbackSlot<S>,
)
    ensures
        *final(state) == state_after_spec(*old(state), raw),
        final(slot).armed() == old(slot).armed(),
        match decode_spec(raw) {
            Some(event_type) => if old(slot).armed() {
                &&& final(slot).invocation_count() == old(slot).invocation_count() + 1
                &&& final(slot).sink_log().len() == old(slot).sink_log().len() + 1
                &&& final(slot).sink_log().last().event_type == event_type
                &&& opt_name_view(final(slot).sink_log().last().name) == name_after_spec(
                    *old(state),
                    raw,
                )
                &&& final(slot).sink_log().drop_last() == old(slot).sink_log()
            } else {
                *final(slot) == *old(slot)
            },
            None => *final(slot) == *old(slot),
        },
{
    let time = now();
    dispatch_at(raw, state, slot, time);
}

/// The keyboard state left after a whole stream of raw records.
pub open spec fn state_fold(state: KeyboardState, raws: Seq<RawRecord>) -> KeyboardState
    decreases raws.len(),
{
    if raws.len() == 0 {
        state
    } else {
        state_fold(state_after_spec(state, raws.first()), raws.drop_first())
    }
}

/// What a stream of raw records normalizes to: for each recognized
/// record, in order, its canonical event type and the name it resolves
/// to under the keyboard state as of that record; unrecognized records
/// contribute nothing.
pub open spec fn pipeline_spec(state: KeyboardState, raws: Seq<RawRecord>) -> Seq<
    (EventType, Option<Seq<char>>),
>
    decreases raws.len(),
{
    if raws.len() == 0 {
        Seq::empty()
    } else {
        let head = raws.first();
        let rest = pipeline_spec(state_after_spec(state, head), raws.drop_first());
        match decode_spec(head) {
            Some(event_type) => seq![(event_type, name_after_spec(state, head))] + rest,
            None => rest,
        }
    }
}

/// Whether a run of delivered events carries exactly the expected
/// types and names, in order, all stamped with the one timestamp.
pub open spec fn renders(
    events: Seq<Event>,
    expected: Seq<(EventType, Option<Seq<char>>)>,
    time: Timestamp,
) -> bool {
    &&& events.len() == expected.len()
    &&& forall|i: int|
        0 <= i < events.len() ==> {
            &&& (#[trigger] events[i]).event_type == expected[i].0
            &&& opt_name_view(events[i].name) == expected[i].1
            &&& events[i].time == time
        }
}

/// Folding one more record equals stepping the fold of the rest.
proof fn lemma_state_fold_snoc(state: KeyboardState, raws: Seq<RawRecord>, raw: RawRecord)
    ensures
        state_fold(state, raws.push(raw)) == state_after_spec(state_fold(state, raws), raw),
    decreases raws.len(),
{
    reveal_with_fuel(state_fold, 2);
    if raws.len() == 0 {
        assert(raws.push(raw).first() == raw);
        assert(raws.push(raw).drop_first() =~= Seq::<RawRecord>::empty());
    } else {
        assert(raws.push(raw).first() == raws.first());
        assert(raws.push(raw).drop_first() =~= raws.drop_first().push(raw));
        lemma_state_fold_snoc(state_after_spec(state, raws.first()), raws.drop_first(), raw);
    }
}

/// The pipeline of one more record appends that record's rendering —
/// under the keyboard state the earlier records folded to — to the
/// pipeline of the rest.
proof fn lemma_pipeline_snoc(state: KeyboardState, raws: Seq<RawRecord>, raw: RawRecord)
    ensures
        pipeline_spec(state, raws.push(raw)) == pipeline_spec(state, raws) + (match decode_spec(
            raw,
        ) {
            Some(event_type) => seq![
                (event_type, name_after_spec(state_fold(state, raws), raw)),
            ],
            None => Seq::<(EventType, Option<Seq<char>>)>::empty(),
        }),
    decreases raws.len(),
{
    reveal_with_fuel(pipeline_spec, 2);
    reveal_with_fuel(state_fold, 2);
    if raws.len() == 0 {
        assert(raws.push(raw).first() == raw);
        assert(raws.push(raw).drop_first() =~= Seq::<RawRecord>::empty());
        assert(pipeline_spec(state, raws.push(raw)) =~= pipeline_spec(state, raws) + (
        match decode_spec(raw) {
            Some(event_type) => seq![
                (event_type, name_after_spec(state_fold(state, raws), raw)),
            ],
            None => Seq::<(EventType, Option<Seq<char>>)>::empty(),
        }));
    } else {
        assert(raws.push(raw).first() == raws.first());
        assert(raws.push(raw).drop_first() =~= raws.drop_first().push(raw));
        lemma_pipeline_snoc(state_after_spec(state, raws.first()), raws.drop_first(), raw);
        assert(pipeline_spec(state, raws.push(raw)) =~= pipeline_spec(state, raws) + (
        match decode_spec(raw) {
            Some(event_type) => seq![
                (event_type, name_after_spec(state_fold(state, raws), raw)),
            ],
            None => Seq::<(EventType, Option<Seq<char>>)>::empty(),
        }));
    }
}

/// Dispatch a whole stream of raw records at one timestamp: the
/// keyboard state folds over every record, and an armed sink receives
/// exactly the recognized records' normalized events, in delivery
/// order — one invocation per recognized record, none for the rest.
/// An empty slot is left untouched by the whole stream.
pub fn dispatch_all<S: EventSink>(
    raws: &Vec<RawRecord>,
    state: &mut KeyboardState,
    slot: &mut CallbackSlot<S>,
    time: Timestamp,
)
    ensures
        *final(state) == state_fold(*old(state), raws@),
        final(slot).armed() == old(slot).armed(),
        old(slot).armed() ==> {
            &&& final(slot).sink_log().len() == old(slot).sink_log().len() + pipeline_spec(
                *old(state),
                raws@,
            ).len()
            &&& final(slot).invocation_count() == old(slot).invocation_count() + pipeline_spec(
                *old(state),
                raws@,
            ).len()
            &&& final(slot).sink_log().take(old(slot).sink_log().len() as int) == old(
                slot,
            ).sink_log()
            &&& renders(
                final(slot).sink_log().skip(old(slot).sink_log().len() as int),
                pipeline_spec(*old(state), raws@),
                time,
            )
        },
        !old(slot).armed() ==> *final(slot) == *old(slot),
{
    let ghost orig_state = *state;
    let ghost orig_slot = *slot;
    let ghost orig_len = slot.sink_log().len();
    for i in 0..raws.len()
        invariant
            *state == state_fold(orig_state, raws@.take(i as int)),
            slot.armed() == orig_slot.armed(),
            orig_slot.armed() ==> {
                &&& slot.sink_log().len() == orig_len + pipeline_spec(
                    orig_state,
                    raws@.take(i as int),
                ).len()
                &&& slot.invocation_count() == orig_slot.invocation_count() + pipeline_spec(
                    orig_state,
                    raws@.take(i as int),
                ).len()
                &&& slot.sink_log().take(orig_len as int) == orig_slot.sink_log()
                &&& renders(
                    slot.sink_log().skip(orig_len as int),
                    pipeline_spec(orig_state, raws@.take(i as int)),
                    time,
                )
            },
            !orig_slot.armed() ==> *slot == orig_slot,
    {
        let ghost pre_state = *state;
        let ghost pre_log = slot.sink_log();
        dispatch_at(raws[i], state, slot, time);
        proof {
            assert(raws@.take(i + 1) =~= raws@.take(i as int).push(raws@[i as int]));
            lemma_state_fold_snoc(orig_state, raws@.take(i as int), raws@[i as int]);
            lemma_pipeline_snoc(orig_state, raws@.take(i as int), raws@[i as int]);
            if orig_slot.armed() {
                match decode_spec(raws@[i as int]) {
                    Some(_) => {
                        assert(slot.sink_log().drop_last() == pre_log);
                        assert(slot.sink_log() =~= pre_log.push(slot.sink_log().last()));
                        assert(slot.sink_log().take(orig_len as int) =~= pre_log.take(
                            orig_len as int,
                        ));
                        assert(slot.sink_log().skip(orig_len as int) =~= pre_log.skip(
                            orig_len as int,
                        ).push(slot.sink_log().last()));
                    }
                    None => {}
                }
                assert(renders(
                    slot.sink_log().skip(orig_len as int),
                    pipeline_spec(orig_state, raws@.take(i + 1)),
                    time,
                ));
            }
        }
    }
    proof {
        assert(raws@.take(raws@.len() as int) =~= raws@);
    }
}

} // verus!
