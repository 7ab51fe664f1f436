# lucet_runtime_internals

The decisions of the Lucet WebAssembly runtime, written in Verus and proved against their
contracts: runtime limits and the layout of instance memory, heap growth, trap lookup, the
instance state machine (running, yielding, resuming, faulting, terminating), the kill-switch
protocol, the runtime's signal handling decisions, the page-fault decisions of lazily populated
regions, the run loop of instances driven by an async executor, and the C API's conversions.

Layout:

- `src/`: the verified library. Each module states its contracts over spec functions and views;
  the laws that relate several operations are public proof functions next to them.
- `tests/`: tests of the library on concrete values.
- `app/`: the embedding around the library: memory mapped with `mmap`, kill switches that signal
  guest threads, installation of the runtime's signal handler, syncpoints for tests, and test
  helpers. It performs the system calls and the copies of memory the library's functions call
  for; the decisions themselves are the library's.
