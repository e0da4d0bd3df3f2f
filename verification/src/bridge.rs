//! The bridge adapter proper: holds the method handles resolved once from
//! the foreign callback object and, for each lifecycle hook, serializes the
//! payload with the verified encoders and enters the foreign runtime to
//! deliver it.
//!
//! Entering the foreign runtime happens only inside the trusted `invoke_*`
//! wrappers, each of which acquires the runtime's global lock for the
//! duration of one call and swallows any error the handler raises, so that
//! the native instrumentation path is never destabilized. Nothing is assumed
//! about what a handler returns.

use vstd::prelude::*;

use pyo3::Bound;
use pyo3::Py;
use pyo3::PyAny;
use pyo3::types::PyAnyMethods;

use crate::data::EventData;
use crate::data::RecordValues;
use crate::data::SpanAttributes;
use crate::encode::encode_event;
use crate::encode::encode_record_values;
use crate::encode::encode_span_attributes;
use crate::encode::encode_span_id;
use crate::protocol::Callbacks;

verus! {

#[verifier::external_type_specification]
#[verifier::external_body]
#[verifier::reject_recursive_types(T)]
pub struct ExPy<T>(Py<T>);

#[verifier::external_type_specification]
#[verifier::external_body]
pub struct ExPyAny(PyAny);

#[verifier::external_type_specification]
#[verifier::external_body]
#[verifier::reject_recursive_types(T)]
pub struct ExBound<'py, T>(Bound<'py, T>);

/// Relies on pyo3's `PyAnyMethods::getattr` and `Bound::unbind`: yields a
/// durable handle to the named attribute of the foreign object, or nothing
/// when the lookup fails.
#[verifier::external_body]
fn resolve_method(obj: &Bound<'_, PyAny>, name: &str) -> Option<Py<PyAny>> {
    obj.getattr(name).ok().map(Bound::unbind)
}

/// Relies on pyo3's `Python::attach`, `Py::bind` and `PyAnyMethods::call1`:
/// invokes the foreign creation handler under the runtime's global lock
/// with the serialized attributes and identifier, yielding its return
/// value, or nothing when the handler raises. Nothing is assumed about
/// which of the two it is.
#[verifier::external_body]
fn invoke_new_span(handler: &Py<PyAny>, attrs: &str, span_id: &str) -> Option<Py<PyAny>> {
    pyo3::Python::attach(|py| handler.bind(py).call1((attrs, span_id)).ok().map(Bound::unbind))
}

/// Relies on pyo3's `Python::attach`, `Py::bind`, `Py::clone_ref` and
/// `PyAnyMethods::call1`: invokes the foreign event handler under the
/// runtime's global lock with the serialized event and the span state;
/// the handler's result, error or not, is discarded.
#[verifier::external_body]
fn invoke_event(handler: &Py<PyAny>, payload: &str, state: Option<&Py<PyAny>>) {
    pyo3::Python::attach(|py| {
        let st = state.map(|s| s.clone_ref(py));
        let _ = handler.bind(py).call1((payload, st));
    });
}

/// Relies on pyo3's `Python::attach`, `Py::bind`, `Py::clone_ref` and
/// `PyAnyMethods::call1`: invokes the foreign record handler under the
/// runtime's global lock with the serialized identifier, the serialized
/// values and the span state; the handler's result is discarded.
#[verifier::external_body]
fn invoke_record(handler: &Py<PyAny>, span_id: &str, values: &str, state: Option<&Py<PyAny>>) {
    pyo3::Python::attach(|py| {
        let st = state.map(|s| s.clone_ref(py));
        let _ = handler.bind(py).call1((span_id, values, st));
    });
}

/// Relies on pyo3's `Python::attach`, `Py::bind` and `PyAnyMethods::call1`:
/// invokes the foreign close handler under the runtime's global lock with
/// the serialized identifier and the removed span state, consuming the
/// state; the handler's result is discarded.
#[verifier::external_body]
fn invoke_close(handler: &Py<PyAny>, span_id: &str, state: Option<Py<PyAny>>) {
    pyo3::Python::attach(|py| {
        let _ = handler.bind(py).call1((span_id, state));
    });
}

/// The adapter between the native framework's layer interface and a foreign
/// callback object. It holds up to four method handles, resolved once at
/// construction; a missing method permanently disables the matching hook.
///
/// The surrounding layer implementation resolves spans and owns their
/// extension slots; it feeds each hook's plain payload to the matching
/// `handle_*` method here, which serializes it and delivers it to the
/// foreign object, and it stores the value `handle_new_span` returns as the
/// span's state, handing it back to the later hooks for that span.
pub struct PythonCallbackLayerBridge {
    on_event: Option<Py<PyAny>>,
    on_new_span: Option<Py<PyAny>>,
    on_close: Option<Py<PyAny>>,
    on_record: Option<Py<PyAny>>,
}

impl PythonCallbackLayerBridge {
    /// Which hooks have a resolved foreign method.
    pub closed spec fn spec_callbacks(&self) -> Callbacks {
        Callbacks {
            on_event: self.on_event is Some,
            on_new_span: self.on_new_span is Some,
            on_close: self.on_close is Some,
            on_record: self.on_record is Some,
        }
    }

    /// Resolve the four optional methods on the foreign object, once.
    /// Partial resolution is a normal configuration, not an error.
    pub fn new(py_impl: Bound<'_, PyAny>) -> PythonCallbackLayerBridge {
        let on_event = resolve_method(&py_impl, "on_event");
        let on_close = resolve_method(&py_impl, "on_close");
        let on_new_span = resolve_method(&py_impl, "on_new_span");
        let on_record = resolve_method(&py_impl, "on_record");
        PythonCallbackLayerBridge { on_event, on_close, on_new_span, on_record }
    }

    /// Which hooks have a resolved foreign method.
    pub fn callbacks(&self) -> (r: Callbacks)
        ensures
            r == self.spec_callbacks(),
    {
        Callbacks {
            on_event: self.on_event.is_some(),
            on_new_span: self.on_new_span.is_some(),
            on_close: self.on_close.is_some(),
            on_record: self.on_record.is_some(),
        }
    }

    /// Span creation: serialize the attributes and identifier and deliver
    /// them; the value the handler returned, if any, becomes the span's
    /// state. With the handler absent no call is made and no state
    /// attaches.
    pub fn handle_new_span(&self, attrs: &SpanAttributes, span_id: u64) -> (state: Option<
        Py<PyAny>,
    >)
        ensures
            !self.spec_callbacks().on_new_span ==> state is None,
    {
        match &self.on_new_span {
            Some(handler) => {
                let payload = encode_span_attributes(attrs);
                let id_text = encode_span_id(span_id);
                invoke_new_span(handler, payload.as_str(), id_text.as_str())
            },
            None => None,
        }
    }

    /// An event: serialize it and deliver it with the resolved span's
    /// state, which is only borrowed. The call is made exactly when the
    /// handler is present.
    pub fn handle_event(&self, e: &EventData, state: Option<&Py<PyAny>>) -> (invoked: bool)
        ensures
            invoked == self.spec_callbacks().on_event,
    {
        match &self.on_event {
            Some(handler) => {
                let payload = encode_event(e);
                invoke_event(handler, payload.as_str(), state);
                true
            },
            None => false,
        }
    }

    /// A record of further field values: serialize the identifier and the
    /// values and deliver them with the span's state, which is only
    /// borrowed. The call is made exactly when the handler is present.
    pub fn handle_record(&self, span_id: u64, values: &RecordValues, state: Option<&Py<PyAny>>) -> (invoked:
        bool)
        ensures
            invoked == self.spec_callbacks().on_record,
    {
        match &self.on_record {
            Some(handler) => {
                let id_text = encode_span_id(span_id);
                let payload = encode_record_values(values);
                invoke_record(handler, id_text.as_str(), payload.as_str(), state);
                true
            },
            None => false,
        }
    }

    /// Span close: serialize the identifier and deliver it with the state
    /// removed from the span's slot, consuming the state. The call is made
    /// exactly when the handler is present.
    pub fn handle_close(&self, span_id: u64, state: Option<Py<PyAny>>) -> (invoked: bool)
        ensures
            invoked == self.spec_callbacks().on_close,
    {
        match &self.on_close {
            Some(handler) => {
                let id_text = encode_span_id(span_id);
                invoke_close(handler, id_text.as_str(), state);
                true
            },
            None => false,
        }
    }
}

} // verus!
