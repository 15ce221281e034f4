# bench_agent

A lightweight PC benchmark agent: it reads the machine's hardware identity,
measures CPU, memory and storage, scores them, and serves the result to a
local web page.

- `src/` is the verified library (Verus): disk-tier rule and baselines
  (`score`), the shared progress/result state and its run lifecycle
  (`state`), request routing, content types and replies of the local server
  (`server`), the integer kernels of the CPU and memory benchmarks (`cpu`,
  `memory`), aligned IO buffers and the random-read schedule (`disk`), the
  hardware summary and primary-GPU choice (`hardware`), the browser launch
  command (`browser`), and character-level string helpers (`text`).
- `app/` is the program around it: timing, threads, file and network IO,
  the embedded web UI, JSON serialization, and the floating-point scoring
  and statistics.
- `tests/` exercises the library on concrete values.
