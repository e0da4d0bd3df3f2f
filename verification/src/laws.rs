//! Laws of the bridge protocol, proved over the spec transitions of
//! `crate::protocol`: the call sequence a single span produces, the nesting
//! of parent and child spans, the absence of state for span-less events,
//! state destruction at close, and the effect of a disabled handler.

use vstd::prelude::*;

use crate::data::EventDataV;
use crate::data::RecordValuesV;
use crate::data::SpanAttributesV;
use crate::encode::spec_event_json;
use crate::encode::spec_record_values_json;
use crate::encode::spec_span_attributes_json;
use crate::encode::spec_span_id_text;
use crate::protocol::BridgeModelV;
use crate::protocol::ForeignCallV;
use crate::protocol::spec_on_close;
use crate::protocol::spec_on_event;
use crate::protocol::spec_on_new_span;
use crate::protocol::spec_on_record;

verus! {

/// One hook delivered during a span's life: a record of field values, or an
/// event observed while the span is current.
pub enum MidOpV {
    Record(RecordValuesV),
    Event(EventDataV),
}

/// Apply a sequence of mid-life hooks, oldest first, all charged to the
/// span `id`: records name it directly, events resolve to it as the
/// current span.
pub open spec fn spec_run_mid<T>(
    m: BridgeModelV<T>,
    id: u64,
    mids: Seq<MidOpV>,
) -> BridgeModelV<T>
    decreases mids.len(),
{
    if mids.len() == 0 {
        m
    } else {
        let m1 = spec_run_mid(m, id, mids.drop_last());
        match mids.last() {
            MidOpV::Record(v) => spec_on_record(m1, id, v),
            MidOpV::Event(e) => spec_on_event(m1, e, None, Some(id)),
        }
    }
}

/// The foreign call a mid-life hook makes for span `id` when its state is
/// `st`.
pub open spec fn spec_mid_call<T>(op: MidOpV, id: u64, st: Option<T>) -> ForeignCallV<T> {
    match op {
        MidOpV::Record(v) => ForeignCallV::Record {
            span_id: spec_span_id_text(id),
            values: spec_record_values_json(v),
            state: st,
        },
        MidOpV::Event(e) => ForeignCallV::Event { payload: spec_event_json(e), state: st },
    }
}

/// While a span is live and the event and record handlers are present, its
/// mid-life hooks leave the store untouched and produce exactly one call
/// each, in order, every one carrying the span's stored state.
pub proof fn lemma_run_mid<T>(m: BridgeModelV<T>, id: u64, mids: Seq<MidOpV>)
    requires
        m.callbacks.on_record,
        m.callbacks.on_event,
        m.store.contains_key(id),
    ensures
        spec_run_mid(m, id, mids).callbacks == m.callbacks,
        spec_run_mid(m, id, mids).store == m.store,
        spec_run_mid(m, id, mids).calls == m.calls + mids.map_values(
            |op: MidOpV| spec_mid_call::<T>(op, id, m.store[id]),
        ),
    decreases mids.len(),
{
    let f = |op: MidOpV| spec_mid_call::<T>(op, id, m.store[id]);
    if mids.len() == 0 {
        assert(m.calls + mids.map_values(f) =~= m.calls);
    } else {
        lemma_run_mid(m, id, mids.drop_last());
        let m1 = spec_run_mid(m, id, mids.drop_last());
        let m2 = spec_run_mid(m, id, mids);
        assert(mids.map_values(f) =~= mids.drop_last().map_values(f).push(f(mids.last())));
        assert(m2.calls =~= m.calls + mids.map_values(f));
    }
}

/// Law: a span with no children and no failures yields exactly this call
/// sequence — one creation call, then one call per mid-life hook, each
/// carrying the state the creation handler returned, then one close call
/// carrying that same state. Afterwards the span's slot is gone, the rest
/// of the store is as before, and no later record or close for the same
/// identifier produces a call or a change.
pub proof fn lemma_span_lifecycle<T>(
    m0: BridgeModelV<T>,
    attrs: SpanAttributesV,
    id: u64,
    st: Option<T>,
    mids: Seq<MidOpV>,
)
    requires
        m0.callbacks.on_new_span,
        m0.callbacks.on_record,
        m0.callbacks.on_event,
        m0.callbacks.on_close,
        !m0.store.contains_key(id),
    ensures
        ({
            let closed = spec_on_close(spec_run_mid(spec_on_new_span(m0, attrs, id, st), id, mids), id);
            &&& closed.calls == m0.calls + seq![
                ForeignCallV::<T>::NewSpan {
                    attrs: spec_span_attributes_json(attrs),
                    span_id: spec_span_id_text(id),
                },
            ] + mids.map_values(|op: MidOpV| spec_mid_call::<T>(op, id, st)) + seq![
                ForeignCallV::<T>::Close { span_id: spec_span_id_text(id), state: st },
            ]
            &&& !closed.store.contains_key(id)
            &&& closed.store == m0.store
            &&& closed.callbacks == m0.callbacks
            &&& forall|v: RecordValuesV| #[trigger] spec_on_record(closed, id, v) == closed
            &&& spec_on_close(closed, id) == closed
        }),
{
    let m1 = spec_on_new_span(m0, attrs, id, st);
    assert(m1.store[id] == st);
    lemma_run_mid(m1, id, mids);
    let m2 = spec_run_mid(m1, id, mids);
    let m3 = spec_on_close(m2, id);
    assert(m3.store =~= m0.store);
    assert(m3.calls =~= m0.calls + seq![
        ForeignCallV::<T>::NewSpan {
            attrs: spec_span_attributes_json(attrs),
            span_id: spec_span_id_text(id),
        },
    ] + mids.map_values(|op: MidOpV| spec_mid_call::<T>(op, id, st)) + seq![
        ForeignCallV::<T>::Close { span_id: spec_span_id_text(id), state: st },
    ]);
}

/// Law: a child span opened inside a live parent produces its creation and
/// close calls, in order, strictly inside the parent's open interval, with
/// the child's mid-life calls carrying the child's state, and the closes
/// delivered innermost first.
pub proof fn lemma_nested_spans<T>(
    m0: BridgeModelV<T>,
    parent_attrs: SpanAttributesV,
    parent_id: u64,
    parent_state: Option<T>,
    child_attrs: SpanAttributesV,
    child_id: u64,
    child_state: Option<T>,
    mids: Seq<MidOpV>,
)
    requires
        m0.callbacks.on_new_span,
        m0.callbacks.on_record,
        m0.callbacks.on_event,
        m0.callbacks.on_close,
        !m0.store.contains_key(parent_id),
        !m0.store.contains_key(child_id),
        parent_id != child_id,
    ensures
        ({
            let opened = spec_on_new_span(
                spec_on_new_span(m0, parent_attrs, parent_id, parent_state),
                child_attrs,
                child_id,
                child_state,
            );
            let closed = spec_on_close(
                spec_on_close(spec_run_mid(opened, child_id, mids), child_id),
                parent_id,
            );
            &&& closed.calls == m0.calls + seq![
                ForeignCallV::<T>::NewSpan {
                    attrs: spec_span_attributes_json(parent_attrs),
                    span_id: spec_span_id_text(parent_id),
                },
                ForeignCallV::<T>::NewSpan {
                    attrs: spec_span_attributes_json(child_attrs),
                    span_id: spec_span_id_text(child_id),
                },
            ] + mids.map_values(|op: MidOpV| spec_mid_call::<T>(op, child_id, child_state))
                + seq![
                ForeignCallV::<T>::Close {
                    span_id: spec_span_id_text(child_id),
                    state: child_state,
                },
                ForeignCallV::<T>::Close {
                    span_id: spec_span_id_text(parent_id),
                    state: parent_state,
                },
            ]
            &&& !closed.store.contains_key(parent_id)
            &&& !closed.store.contains_key(child_id)
            &&& closed.store == m0.store
        }),
{
    let mp = spec_on_new_span(m0, parent_attrs, parent_id, parent_state);
    let mc = spec_on_new_span(mp, child_attrs, child_id, child_state);
    assert(mc.store[child_id] == child_state);
    lemma_run_mid(mc, child_id, mids);
    let m2 = spec_run_mid(mc, child_id, mids);
    let m3 = spec_on_close(m2, child_id);
    let m4 = spec_on_close(m3, parent_id);
    assert(m3.store[parent_id] == parent_state);
    assert(m4.store =~= m0.store);
    assert(m4.calls =~= m0.calls + seq![
        ForeignCallV::<T>::NewSpan {
            attrs: spec_span_attributes_json(parent_attrs),
            span_id: spec_span_id_text(parent_id),
        },
        ForeignCallV::<T>::NewSpan {
            attrs: spec_span_attributes_json(child_attrs),
            span_id: spec_span_id_text(child_id),
        },
    ] + mids.map_values(|op: MidOpV| spec_mid_call::<T>(op, child_id, child_state)) + seq![
        ForeignCallV::<T>::Close { span_id: spec_span_id_text(child_id), state: child_state },
        ForeignCallV::<T>::Close { span_id: spec_span_id_text(parent_id), state: parent_state },
    ]);
}

/// Law: an event that resolves to no live span — no declared parent or a
/// dead one, and no live current span — hands the foreign handler no state.
pub proof fn lemma_event_without_span<T>(
    m: BridgeModelV<T>,
    e: EventDataV,
    parent: Option<u64>,
    current: Option<u64>,
)
    requires
        m.callbacks.on_event,
        parent is Some ==> !m.store.contains_key(parent->0),
        current is Some ==> !m.store.contains_key(current->0),
    ensures
        spec_on_event(m, e, parent, current).calls == m.calls.push(
            ForeignCallV::<T>::Event { payload: spec_event_json(e), state: None },
        ),
        spec_on_event(m, e, parent, current).store == m.store,
{
}

/// Law: after a close, the span's state is removed — a later lookup of the
/// slot finds nothing, and every other span's slot is exactly as before.
pub proof fn lemma_close_removes_state<T>(m: BridgeModelV<T>, id: u64)
    ensures
        !spec_on_close(m, id).store.contains_key(id),
        forall|other: u64|
            other != id ==> (#[trigger] spec_on_close(m, id).store.contains_key(other)
                == m.store.contains_key(other) && (m.store.contains_key(other)
                ==> spec_on_close(m, id).store[other] == m.store[other])),
{
}

/// Law: with the event handler absent, an event changes nothing at all.
pub proof fn lemma_disabled_on_event<T>(
    m: BridgeModelV<T>,
    e: EventDataV,
    parent: Option<u64>,
    current: Option<u64>,
)
    requires
        !m.callbacks.on_event,
    ensures
        spec_on_event(m, e, parent, current) == m,
{
}

/// Law: with the record handler absent, a record changes nothing at all.
pub proof fn lemma_disabled_on_record<T>(m: BridgeModelV<T>, id: u64, values: RecordValuesV)
    requires
        !m.callbacks.on_record,
    ensures
        spec_on_record(m, id, values) == m,
{
}

/// Law: with the creation handler absent, span creation makes no foreign
/// call; the span is live but carries no state, so the remaining hooks
/// proceed with an absent state value.
pub proof fn lemma_disabled_on_new_span<T>(
    m: BridgeModelV<T>,
    attrs: SpanAttributesV,
    id: u64,
    st: Option<T>,
)
    requires
        !m.callbacks.on_new_span,
    ensures
        spec_on_new_span(m, attrs, id, st).calls == m.calls,
        spec_on_new_span(m, attrs, id, st).store == m.store.insert(id, None),
        spec_on_new_span(m, attrs, id, st).callbacks == m.callbacks,
{
}

/// Law: with the close handler absent, a close makes no foreign call, while
/// the span's slot is still removed, so no state leaks.
pub proof fn lemma_disabled_on_close<T>(m: BridgeModelV<T>, id: u64)
    requires
        !m.callbacks.on_close,
    ensures
        spec_on_close(m, id).calls == m.calls,
        spec_on_close(m, id).store == if m.store.contains_key(id) {
            m.store.remove(id)
        } else {
            m.store
        },
        spec_on_close(m, id).callbacks == m.callbacks,
{
}

} // verus!
