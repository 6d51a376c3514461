//! The runs of a benchmark.
use vstd::prelude::*;

verus! {

/// One run of a benchmark: how many threads, and how many hashes in all.
#[derive(Debug, Clone, Copy, PartialEq, Eq, Structural)]
pub struct BenchmarkRun {
    /// The number of threads, each hashing `iterations` times.
    pub threads: usize,
    /// The number of hashes of the run.
    pub total_iterations: usize,
}

/// The runs of a benchmark on up to `threads` threads: one run for each
/// thread count from 1 to `threads`, each thread hashing `iterations` times.
pub fn benchmark_runs(threads: usize, iterations: usize) -> (res: Vec<BenchmarkRun>)
    requires
        threads * iterations <= usize::MAX,
    ensures
        res@.len() == threads,
        forall|i: int|
            0 <= i < threads ==> #[trigger] res@[i] == (BenchmarkRun {
                threads: (i + 1) as usize,
                total_iterations: ((i + 1) * iterations) as usize,
            }),
{
    let mut runs: Vec<BenchmarkRun> = Vec::new();
    let mut bench: usize = 0;
    let mut total: usize = 0;
    while bench < threads
        invariant
            bench <= threads,
            threads * iterations <= usize::MAX,
            total == bench * iterations,
            runs@.len() == bench,
            forall|i: int|
                0 <= i < bench ==> #[trigger] runs@[i] == (BenchmarkRun {
                    threads: (i + 1) as usize,
                    total_iterations: ((i + 1) * iterations) as usize,
                }),
        decreases threads - bench,
    {
        assert((bench + 1) * iterations <= threads * iterations) by (nonlinear_arith)
            requires
                bench + 1 <= threads,
        ;
        assert((bench + 1) * iterations == bench * iterations + iterations) by (nonlinear_arith);
        total = total + iterations;
        bench = bench + 1;
        runs.push(BenchmarkRun { threads: bench, total_iterations: total });
    }
    runs
}

} // verus!
