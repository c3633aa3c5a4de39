# fsm_core

The verified core of `fsm`, a terminal file manager.

- `src/` is the library. Every function is proved against its `requires` /
  `ensures` contract by Verus; calls into `std` and into the outside crates
  (`ratatui`, `serde_json`, `simd-json`, `memchr`, `itoa`, `csv`, `ahash`) go through small
  trusted wrappers whose contracts are stated next to them.
- `tests/` runs the library on concrete values.
- `app/` is the program around it: the terminal, the event loop, the
  filesystem and the external search commands.

Modules of the library:

| module | contents |
|---|---|
| `fs_state` | panes, selection and scrolling, stable entry sorting, recent and favourite directories |
| `keyed_sort` | directories-first, name-ordered listings |
| `command_palette`, `completion` | command filtering, completion, parsing; completion list layout |
| `search` | ripgrep command line and output parsing |
| `jsonl` | JSON-lines log to JSON array conversion |
| `overlays`, `ui`, `ui_state`, `snapshots` | texts, sizes and small state of the screen components |
| `file_ops` | filesystem operations, search commands, scan and progress decisions |
| `search_stream` | reading a filename search's output: counting, progress, stopping |
| `size_walk` | directory size calculation: bytes below, direct children |
| `debounce` | debounce configurations, throttling, debounce slots |
| `profiling`, `csv_doc` | lock-ordering analysis, CSV and folded-stack exports, event aggregation |
| `humanize`, `text`, `stable_sort`, `paths` | size rendering, text helpers, merge sort, paths |
