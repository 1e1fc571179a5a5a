# agave_votor_scope

A Tokio model of Agave's banking stage (producer → scheduler → workers →
collector) whose batch latencies are measured against Votor's slot budget.

- `src/` is the verified library: the Votor budget and its slot-timeout
  schedule and banner (`votor_budget`, `votor`, `decimal`), the synthetic batch
  work (`workload`), the per-batch jitter decision and allocator churn
  (`jitter`), the latency metrics over `hdrhistogram` (`metrics`), and the
  pipeline's decisions (`pipeline`).
- `app/` is the program: argument parsing, the Tokio runtime and tasks,
  sleeping, timing with `Instant`, and printing quantiles.
- `tests/` exercises the library.

`hdrhistogram::Histogram<u64>` is held in `metrics::SampleHistogram`, a struct
Verus treats as opaque: Verus cannot declare the histogram type itself, because
its `T: Counter` bound names a trait Verus does not know. Everything the
library proves about a histogram rests on the contracts of the two trusted
functions that create and record into it. The struct's field is public
because the program reads floating-point quantiles from it, and no verified
function can return a `Histogram<u64>`.
