//! Tests of the span state store and of the demo's numeric functions.

use pyo3_python_tracing_subscriber::fib::fibonacci;
use pyo3_python_tracing_subscriber::fib::memoized_fibonacci;
use pyo3_python_tracing_subscriber::fib::naive_fibonacci;
use pyo3_python_tracing_subscriber::store::SpanStore;

#[test]
fn store_threads_state_per_span() {
    let mut store: SpanStore<u16> = SpanStore::new();
    assert!(!store.is_live(1));
    store.attach(1, Some(11));
    store.attach(2, None);
    assert!(store.is_live(1));
    assert!(store.is_live(2));
    assert_eq!(Some(Some(11)), store.state_of(1));
    assert_eq!(Some(None), store.state_of(2));
    assert_eq!(None, store.state_of(3));
}

#[test]
fn store_detach_consumes_the_slot() {
    let mut store: SpanStore<u16> = SpanStore::new();
    store.attach(9, Some(5));
    assert_eq!(Some(Some(5)), store.detach(9));
    assert!(!store.is_live(9));
    assert_eq!(None, store.state_of(9));
    assert_eq!(None, store.detach(9));
}

#[test]
fn fibonacci_values() {
    let expected: [usize; 11] = [1, 1, 2, 3, 5, 8, 13, 21, 34, 55, 89];
    for (i, v) in expected.iter().enumerate() {
        assert_eq!(*v, naive_fibonacci(i));
        assert_eq!(*v, memoized_fibonacci(i));
    }
    assert_eq!(987, naive_fibonacci(15));
    assert_eq!(987, memoized_fibonacci(15));
}

#[test]
fn fibonacci_entry_point_chooses_and_refuses() {
    assert_eq!(Ok(987), fibonacci(15, false));
    assert_eq!(Ok(1), fibonacci(0, true));
    assert_eq!(Ok(2178309), fibonacci(31, true));
    assert!(fibonacci(16, false).is_err());
    assert_eq!(Ok(1597), fibonacci(16, true));
}
