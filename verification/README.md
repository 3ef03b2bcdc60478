# rapidgzip

A reader for gzip and BGZF files on top of the native `rapidgzip` decoder, with
its decisions verified in Verus.

- `src/` is the verified library. It makes no native call and touches no file:
  every operation (opening, reading, seeking, importing and exporting an index,
  answering a native callback) is a state machine that names the call it wants
  made (`Request`) and takes what came of it (`Reply`). Contracts say which call
  comes next for every reply; the proof functions named `law_..` say what whole
  runs come to.
- `app/` is ordinary Rust around it: the C ABI, the callbacks that the native
  layer calls, the file system, and the public `Reader` and `ReaderBuilder` with
  the standard `Read` and `Seek` traits.
- `tests/` drives the library with an in-memory decoder and file system.

The library has no trusted items.

| module | what it holds |
| --- | --- |
| `sys` | status codes, configuration, callback tables, handles |
| `text`, `io`, `error` | messages, I/O errors, seek arithmetic, API errors |
| `protocol` | requests, replies, steps, and what holds of every operation |
| `builder`, `open`, `reader` | settings, opening, the reader |
| `transfer`, `seek` | reading and seeking |
| `index_import`, `index_export` | the random-access index |
| `source`, `callbacks` | cloned file sources, native callbacks |
| `laws` | laws that span operations |
| `stream`, `disk` | what reads, seeks and exports come to on a sound decoder and file system |
