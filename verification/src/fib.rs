//! The numeric functions behind the demo instrumentation points. The demo
//! wraps these in spans and log lines; the computation itself lives here,
//! proved against the mathematical Fibonacci sequence.

use vstd::prelude::*;

verus! {

/// The Fibonacci sequence as the demo counts it: the zeroth and first
/// numbers are both one.
pub open spec fn spec_fib(n: nat) -> nat
    decreases n,
{
    if n == 0 || n == 1 {
        1
    } else {
        spec_fib((n - 1) as nat) + spec_fib((n - 2) as nat)
    }
}

/// The sequence never decreases.
pub proof fn lemma_fib_mono(a: nat, b: nat)
    requires
        a <= b,
    ensures
        spec_fib(a) <= spec_fib(b),
    decreases b,
{
    if a < b && b >= 2 {
        lemma_fib_mono(a, (b - 1) as nat);
    }
}

/// Every number of the sequence is positive.
pub proof fn lemma_fib_pos(n: nat)
    ensures
        spec_fib(n) >= 1,
    decreases n,
{
    if n >= 2 {
        lemma_fib_pos((n - 1) as nat);
        lemma_fib_pos((n - 2) as nat);
    }
}

/// From the fourth number on, the sequence outgrows its index.
pub proof fn lemma_fib_above_index(n: nat)
    requires
        n >= 4,
    ensures
        spec_fib(n) >= n + 1,
    decreases n,
{
    if n <= 5 {
        reveal_with_fuel(spec_fib, 7);
    } else {
        lemma_fib_above_index((n - 1) as nat);
        lemma_fib_pos((n - 2) as nat);
    }
}

/// The exponential-time computation, by direct recursion.
pub fn naive_fibonacci(index: usize) -> (r: usize)
    requires
        spec_fib(index as nat) <= usize::MAX,
    ensures
        r == spec_fib(index as nat),
    decreases index,
{
    if index == 0 || index == 1 {
        1
    } else {
        proof {
            lemma_fib_mono((index - 1) as nat, index as nat);
            lemma_fib_mono((index - 2) as nat, index as nat);
        }
        naive_fibonacci(index - 1) + naive_fibonacci(index - 2)
    }
}

/// The linear-time computation, memoizing the sequence in a table.
pub fn memoized_fibonacci(index: usize) -> (r: usize)
    requires
        spec_fib(index as nat) <= usize::MAX,
    ensures
        r == spec_fib(index as nat),
{
    if index == 0 || index == 1 {
        return 1;
    }
    proof {
        if index >= 4 {
            lemma_fib_above_index(index as nat);
        }
    }
    let mut memo: Vec<usize> = Vec::with_capacity(index);
    memo.push(1);
    memo.push(1);
    let mut i: usize = 2;
    while i <= index
        invariant
            2 <= i <= index + 1,
            index >= 2,
            index < usize::MAX,
            memo.len() == i,
            spec_fib(index as nat) <= usize::MAX,
            forall|j: int| 0 <= j < i ==> memo[j] == spec_fib(j as nat),
        decreases index + 1 - i,
    {
        proof {
            lemma_fib_mono(i as nat, index as nat);
        }
        let next: usize = memo[i - 1] + memo[i - 2];
        memo.push(next);
        i += 1;
    }
    memo[index]
}

/// The demo's entry point: choose a generator and compute, refusing the
/// naive generator above the fifteenth number. Succeeds exactly when the
/// memoized generator was asked for or the index is at most fifteen.
pub fn fibonacci(index: usize, use_memoized: bool) -> (r: Result<usize, &'static str>)
    requires
        use_memoized ==> spec_fib(index as nat) <= usize::MAX,
    ensures
        use_memoized || index <= 15 ==> r == Ok::<usize, &'static str>(
            spec_fib(index as nat) as usize,
        ),
        !use_memoized && index > 15 ==> r is Err,
{
    if use_memoized {
        Ok(memoized_fibonacci(index))
    } else if index <= 15 {
        proof {
            reveal_with_fuel(spec_fib, 17);
            lemma_fib_mono(index as nat, 15);
            assert(spec_fib(15) == 987);
        }
        Ok(naive_fibonacci(index))
    } else {
        Err("index too high for naive fibonacci generator")
    }
}

} // verus!
