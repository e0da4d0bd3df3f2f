//! The bridge protocol: which foreign calls each lifecycle hook makes, with
//! which serialized payload and which threaded state, and what each hook does
//! to the span state store.
//!
//! `BridgeModel` is the executable form of the adapter's observable
//! behaviour: instead of entering the foreign runtime it appends the call it
//! would make to a log, with the foreign handler's return value supplied by
//! the caller. Each transition is pinned by a spec function, and the laws at
//! the end of the module are proved over those spec functions.

use vstd::prelude::*;

use crate::data::EventData;
use crate::data::EventDataV;
use crate::data::RecordValues;
use crate::data::RecordValuesV;
use crate::data::SpanAttributes;
use crate::data::SpanAttributesV;
use crate::encode::encode_event;
use crate::encode::encode_record_values;
use crate::encode::encode_span_attributes;
use crate::encode::encode_span_id;
use crate::encode::spec_event_json;
use crate::encode::spec_record_values_json;
use crate::encode::spec_span_attributes_json;
use crate::encode::spec_span_id_text;
use crate::store::SpanStore;

verus! {

/// Which of the four foreign methods the callback object provides. Resolved
/// once at adapter construction; a missing method permanently disables that
/// hook.
#[derive(Clone, Copy, PartialEq, Eq, Structural, Debug)]
pub struct Callbacks {
    pub on_event: bool,
    pub on_new_span: bool,
    pub on_close: bool,
    pub on_record: bool,
}

impl Callbacks {
    /// A callback object providing all four methods.
    pub open spec fn spec_all() -> Callbacks {
        Callbacks { on_event: true, on_new_span: true, on_close: true, on_record: true }
    }

    /// A callback object providing all four methods.
    pub fn all() -> (r: Callbacks)
        ensures
            r == Callbacks::spec_all(),
    {
        Callbacks { on_event: true, on_new_span: true, on_close: true, on_record: true }
    }
}

/// One call into the foreign runtime, as observed by the callback object:
/// the serialized payloads handed over and the threaded state, if the hook
/// passes one.
#[derive(Clone, Debug, PartialEq)]
pub enum ForeignCall<T> {
    NewSpan { attrs: String, span_id: String },
    Event { payload: String, state: Option<T> },
    Record { span_id: String, values: String, state: Option<T> },
    Close { span_id: String, state: Option<T> },
}

/// Mathematical view of a foreign call.
pub enum ForeignCallV<T> {
    NewSpan { attrs: Seq<char>, span_id: Seq<char> },
    Event { payload: Seq<char>, state: Option<T> },
    Record { span_id: Seq<char>, values: Seq<char>, state: Option<T> },
    Close { span_id: Seq<char>, state: Option<T> },
}

impl<T> View for ForeignCall<T> {
    type V = ForeignCallV<T>;

    open spec fn view(&self) -> ForeignCallV<T> {
        match self {
            ForeignCall::NewSpan { attrs, span_id } => ForeignCallV::NewSpan {
                attrs: attrs@,
                span_id: span_id@,
            },
            ForeignCall::Event { payload, state } => ForeignCallV::Event {
                payload: payload@,
                state: *state,
            },
            ForeignCall::Record { span_id, values, state } => ForeignCallV::Record {
                span_id: span_id@,
                values: values@,
                state: *state,
            },
            ForeignCall::Close { span_id, state } => ForeignCallV::Close {
                span_id: span_id@,
                state: *state,
            },
        }
    }
}

/// Mathematical view of the bridge: the resolved callback set, the span
/// state store, and the foreign calls made so far, oldest first.
pub struct BridgeModelV<T> {
    pub callbacks: Callbacks,
    pub store: Map<u64, Option<T>>,
    pub calls: Seq<ForeignCallV<T>>,
}

/// The span an event is charged to: its explicitly declared parent if that
/// span is live, else the contextually current span if live, else none.
pub open spec fn spec_resolve_span<T>(
    store: Map<u64, Option<T>>,
    parent: Option<u64>,
    current: Option<u64>,
) -> Option<u64> {
    match parent {
        Some(p) => if store.contains_key(p) {
            Some(p)
        } else {
            spec_resolve_current(store, current)
        },
        None => spec_resolve_current(store, current),
    }
}

/// The contextually current span, if live.
pub open spec fn spec_resolve_current<T>(
    store: Map<u64, Option<T>>,
    current: Option<u64>,
) -> Option<u64> {
    match current {
        Some(c) => if store.contains_key(c) {
            Some(c)
        } else {
            None
        },
        None => None,
    }
}

/// The state handed to a handler for a resolved span: the span's stored
/// state, or nothing when no span was resolved.
pub open spec fn spec_state_for<T>(
    store: Map<u64, Option<T>>,
    resolved: Option<u64>,
) -> Option<T> {
    match resolved {
        Some(id) => if store.contains_key(id) {
            store[id]
        } else {
            None
        },
        None => None,
    }
}

/// Span creation: the span becomes live. With the creation hook present,
/// one call delivers the serialized attributes and identifier, and the
/// handler's return value becomes the span's state; with it absent, no call
/// is made and the span carries no state.
pub open spec fn spec_on_new_span<T>(
    m: BridgeModelV<T>,
    attrs: SpanAttributesV,
    id: u64,
    foreign_state: Option<T>,
) -> BridgeModelV<T> {
    if m.callbacks.on_new_span {
        BridgeModelV {
            store: m.store.insert(id, foreign_state),
            calls: m.calls.push(
                ForeignCallV::NewSpan {
                    attrs: spec_span_attributes_json(attrs),
                    span_id: spec_span_id_text(id),
                },
            ),
            ..m
        }
    } else {
        BridgeModelV { store: m.store.insert(id, None), ..m }
    }
}

/// An event: with the hook present, one call delivers the serialized event
/// and the resolved span's state. The store never changes.
pub open spec fn spec_on_event<T>(
    m: BridgeModelV<T>,
    e: EventDataV,
    parent: Option<u64>,
    current: Option<u64>,
) -> BridgeModelV<T> {
    if m.callbacks.on_event {
        BridgeModelV {
            calls: m.calls.push(
                ForeignCallV::Event {
                    payload: spec_event_json(e),
                    state: spec_state_for(m.store, spec_resolve_span(m.store, parent, current)),
                },
            ),
            ..m
        }
    } else {
        m
    }
}

/// A record of further field values: with the hook present and the span
/// live, one call delivers the serialized identifier and values and the
/// span's state, which is left unchanged.
pub open spec fn spec_on_record<T>(
    m: BridgeModelV<T>,
    id: u64,
    values: RecordValuesV,
) -> BridgeModelV<T> {
    if m.callbacks.on_record && m.store.contains_key(id) {
        BridgeModelV {
            calls: m.calls.push(
                ForeignCallV::Record {
                    span_id: spec_span_id_text(id),
                    values: spec_record_values_json(values),
                    state: m.store[id],
                },
            ),
            ..m
        }
    } else {
        m
    }
}

/// Span close: the span's slot is removed — the single point of state
/// destruction. With the close hook present, one call delivers the
/// serialized identifier and the removed state. Closing a span that is not
/// live does nothing.
pub open spec fn spec_on_close<T>(m: BridgeModelV<T>, id: u64) -> BridgeModelV<T> {
    if m.store.contains_key(id) {
        BridgeModelV {
            store: m.store.remove(id),
            calls: if m.callbacks.on_close {
                m.calls.push(
                    ForeignCallV::Close { span_id: spec_span_id_text(id), state: m.store[id] },
                )
            } else {
                m.calls
            },
            ..m
        }
    } else {
        m
    }
}

/// Executable form of the bridge's observable behaviour. The foreign
/// handlers' return values are supplied by the caller; everything else —
/// which calls are made, with which payloads, and how state is threaded —
/// follows the spec transitions exactly.
pub struct BridgeModel<T> {
    pub callbacks: Callbacks,
    pub store: SpanStore<T>,
    pub calls: Vec<ForeignCall<T>>,
}

impl<T> View for BridgeModel<T> {
    type V = BridgeModelV<T>;

    open spec fn view(&self) -> BridgeModelV<T> {
        BridgeModelV {
            callbacks: self.callbacks,
            store: self.store@,
            calls: self.calls@.map_values(|c: ForeignCall<T>| c@),
        }
    }
}

impl<T: Copy> BridgeModel<T> {
    /// A fresh bridge for the given callback set: no live span, no call yet.
    pub fn new(callbacks: Callbacks) -> (r: BridgeModel<T>)
        ensures
            r@ == (BridgeModelV {
                callbacks,
                store: Map::<u64, Option<T>>::empty(),
                calls: Seq::<ForeignCallV<T>>::empty(),
            }),
    {
        let r = BridgeModel { callbacks, store: SpanStore::new(), calls: Vec::new() };
        proof {
            assert(r.calls@.map_values(|c: ForeignCall<T>| c@) =~= Seq::<
                ForeignCallV<T>,
            >::empty());
        }
        r
    }

    /// Span creation; `foreign_state` is what the creation handler returned,
    /// or nothing when it was absent or failed.
    pub fn on_new_span(&mut self, attrs: &SpanAttributes, id: u64, foreign_state: Option<T>)
        requires
            !old(self)@.store.contains_key(id),
        ensures
            final(self)@ == spec_on_new_span(old(self)@, attrs@, id, foreign_state),
    {
        if self.callbacks.on_new_span {
            let payload = encode_span_attributes(attrs);
            let id_text = encode_span_id(id);
            self.calls.push(ForeignCall::NewSpan { attrs: payload, span_id: id_text });
            self.store.attach(id, foreign_state);
            proof {
                assert(self.calls@.map_values(|c: ForeignCall<T>| c@) =~= old(
                    self,
                )@.calls.push(
                    ForeignCallV::NewSpan {
                        attrs: spec_span_attributes_json(attrs@),
                        span_id: spec_span_id_text(id),
                    },
                ));
            }
        } else {
            self.store.attach(id, None);
        }
    }

    /// An event, with its declared parent span and the contextually current
    /// span, either of which may be absent or no longer live.
    pub fn on_event(&mut self, e: &EventData, parent: Option<u64>, current: Option<u64>)
        ensures
            final(self)@ == spec_on_event(old(self)@, e@, parent, current),
    {
        if self.callbacks.on_event {
            let resolved: Option<u64> = match parent {
                Some(p) => if self.store.is_live(p) {
                    Some(p)
                } else {
                    self.resolve_current(current)
                },
                None => self.resolve_current(current),
            };
            let state: Option<T> = match resolved {
                Some(id) => match self.store.state_of(id) {
                    Some(st) => st,
                    None => None,
                },
                None => None,
            };
            let payload = encode_event(e);
            self.calls.push(ForeignCall::Event { payload, state });
            proof {
                assert(self.calls@.map_values(|c: ForeignCall<T>| c@) =~= old(
                    self,
                )@.calls.push(
                    ForeignCallV::Event {
                        payload: spec_event_json(e@),
                        state: spec_state_for(
                            old(self)@.store,
                            spec_resolve_span(old(self)@.store, parent, current),
                        ),
                    },
                ));
            }
        }
    }

    /// The contextually current span, if live.
    fn resolve_current(&self, current: Option<u64>) -> (r: Option<u64>)
        ensures
            r == spec_resolve_current(self@.store, current),
    {
        match current {
            Some(c) => if self.store.is_live(c) {
                Some(c)
            } else {
                None
            },
            None => None,
        }
    }

    /// A record of further field values on a span.
    pub fn on_record(&mut self, id: u64, values: &RecordValues)
        ensures
            final(self)@ == spec_on_record(old(self)@, id, values@),
    {
        if self.callbacks.on_record && self.store.is_live(id) {
            let state: Option<T> = match self.store.state_of(id) {
                Some(st) => st,
                None => None,
            };
            let id_text = encode_span_id(id);
            let payload = encode_record_values(values);
            self.calls.push(ForeignCall::Record { span_id: id_text, values: payload, state });
            proof {
                assert(self.calls@.map_values(|c: ForeignCall<T>| c@) =~= old(
                    self,
                )@.calls.push(
                    ForeignCallV::Record {
                        span_id: spec_span_id_text(id),
                        values: spec_record_values_json(values@),
                        state: old(self)@.store[id],
                    },
                ));
            }
        }
    }

    /// Span close.
    pub fn on_close(&mut self, id: u64)
        ensures
            final(self)@ == spec_on_close(old(self)@, id),
    {
        if self.store.is_live(id) {
            let removed: Option<T> = match self.store.detach(id) {
                Some(st) => st,
                None => None,
            };
            if self.callbacks.on_close {
                let id_text = encode_span_id(id);
                self.calls.push(ForeignCall::Close { span_id: id_text, state: removed });
                proof {
                    assert(self.calls@.map_values(|c: ForeignCall<T>| c@) =~= old(
                        self,
                    )@.calls.push(
                        ForeignCallV::Close {
                            span_id: spec_span_id_text(id),
                            state: old(self)@.store[id],
                        },
                    ));
                }
            }
        }
    }
}

} // verus!
