# weaver

Scheduling decisions of `weaver`, a sched_ext user-space CPU scheduler,
written in Verus and proved against their contracts.

- `src/task.rs`: a queued task and its priority order (earlier virtual
  deadline first).
- `src/queue.rs`: the run queue, served earliest deadline first, first in
  first out among equal deadlines.
- `src/decay.rs`: per-task bookkeeping (virtual runtime, decay clock) and the
  discrete and continuous decay of latency criticality.
- `src/dispatch.rs`: slice length, batch budget, CPU fallback, statistics
  interval.
- `src/scheduler.rs`: the scheduler state and its reaction to wake-ups,
  newly runnable tasks and dispatch rounds.
- `src/settings.rs`: the configuration.

`app/` runs the scheduler: it talks to the BPF side, parses the command line
and keeps the real-valued latency criticality of each task.
