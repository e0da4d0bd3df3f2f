//! A bridge that lets a foreign callback object observe the span and event
//! lifecycle of a native structured-instrumentation framework. Each lifecycle
//! hook serializes its payload to JSON text, enters the foreign runtime under
//! its global lock, and invokes the matching optional method on the callback
//! object, threading an opaque per-span state value from span creation to
//! span close.

pub mod bridge;
pub mod data;
pub mod encode;
pub mod fib;
pub mod laws;
pub mod protocol;
pub mod store;
