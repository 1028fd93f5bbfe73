# mmtk plans

Garbage-collection plans with machine-checked contracts: a semispace plan
(`MyGC`), a three-space plan with a young space (`TripleSpace`), and two plans
that never collect (`WithMut`, `SingleSemi`), together with what they rest on:
virtual-memory requests, the heap's address range, spaces, bump-pointer
allocation, forwarding of copied objects, mutator set-up and work scheduling.

Layout:

- `src/util/heap`: `VMRequest`, the heap layout constants, `HeapMeta`.
- `src/policy`: the state common to spaces (range, acquired pages), copy spaces
  and immortal (mark-only) spaces, each with its tracing.
- `src/util/allocator`: bump-pointer allocation, allocator selectors and
  mappings, a mutator's allocators.
- `src/util/object_model.rs`, `src/util/forwarding_word.rs`: the objects the
  collector reads (size, alignment, forwarding state, mark bit) and copying.
- `src/plan`: the plans, their copy contexts, edge processing and mutators.
- `src/scheduler`: the stages of a collection's work.
- `app/`: the `enum_map` tables of the allocator mappings, the entry points of
  the non-collecting plans that never return, and `f32` fractions.

Modelling choices, stated in the contracts:

- One collector thread: forwarding never waits on another thread's copy.
- A copy that finds no memory makes tracing return the null reference and leaves
  the object unforwarded.
- A discontiguous space owns no address range and provides no memory; under the
  64-bit layout every space is contiguous, under the 32-bit layout none is, so
  there the plans can neither allocate nor copy.
- `AllocatorMapping` holds one field per kind of allocation; the `EnumMap`
  tables, which need the `Enum` derive on the key type, are built in `app/`.
- A request for a fraction of the heap is never granted.
- The large-object space is marked like the immortal space and is not swept.
