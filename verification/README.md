# speare

A minimalistic actor framework on tokio tasks and flume channels, with
supervision in the style of Akka.NET. The framework's decisions (restart
policies, supervision plans, each run's steps and exit, ids, registry and
publish/subscribe bookkeeping, the acceptance rules of `#[process]`) are
written in Verus and proved against their contracts; the tasks, channels and
timers that carry them out are ordinary Rust.

## Layout

- `src/` — the verified library.
  - `speare/` — the actor runtime's core: restart policies and backoff
    (`restart`), the run of an actor from start to exit (`lifecycle`), exit
    reasons, the name registry, topic publish/subscribe, request/response
    outcomes, stream merging, and the task tables of the minimal runtime
    (`mini`).
  - `process_api/` — the process runtime: restart limits within time windows,
    backoff, the supervisor's plan for a failed child, process runs, process
    ids and subscriber pruning, and source streams.
  - `simple_api/` — the simple runtime: directives, restart counting and the
    message loop's decisions.
  - `children.rs`, `named.rs`, `id_map.rs`, `keyed.rs` — the tables the
    runtimes keep (children by id, values by name, values by id) and their
    lemmas.
  - `macros.rs` — the rules by which `#[process]` accepts a handler and its
    own arguments.
  - `type_ids.rs` — `std::any::TypeId`, compared through one trusted wrapper.
- `app/` — the runtimes themselves: spawning, message loops, channels, timers,
  and the attribute functions over syn's syntax tree.
- `tests/` — tests of the library on concrete values.

Durations and instants are counted in nanoseconds (`u128`) throughout the
library; `app/time.rs` converts them.

The tables of children, restart counters and tasks are vectors of
`(id, value)` pairs with an invariant that no id occurs twice, in place of hash
maps. Several decisions act on every entry in turn (stop every child, restart
every child, abort every task), and a vector gives them an order that the
contracts can name (`values_of(entries)`), where a hash map's iteration order is
unspecified. Message types are keyed by `std::any::TypeId` in the same way,
compared through the one trusted wrapper in `type_ids.rs`.
