# arroyo_controller

The decisions of a stream-processing controller about one job, verified with Verus: how a job is
scheduled, who may cause irreversible effects while it is, how a fan-out of start requests is
accounted for, what an interrupted attempt leaves behind and how a later controller discharges it,
and what the states of a running, restarting, rescaling or recovering job do about what happens to
them.

The library performs nothing. Where a decision needs something done (a row written, an object
published, a worker asked), it says so, and is told afterwards what came of it.

- `src/admission.rs`: the job's publication lock and the authority behind it
- `src/lifecycle/`: the writer that decides a job's lifecycle, the fence, the settlement owner, the
  recovery of recorded obligations, and the metadata a generation is rooted by
- `src/scheduling/`: the phases of a fenced attempt, the attempt of a job without a fence, and what
  both are made of
- `src/running.rs`, `src/restarting.rs`, `src/rescaling.rs`, `src/recovering.rs`: the other states,
  each as a function from a stage and an event to what follows
- `tests/`: the library on concrete values
- `app/`: the channels, clocks and services around it, as ordinary Rust
