# adler

The verified core of the ADLER assistant: the kernel's agent lifecycle,
messages, intent judge and orchestrator, and the desktop agents' decisions —
hardware command parsing and safety limits, the spoken-output queue and
dialog state machine, wake-word detection, document excerpts, repository
analysis and the assimilation pipeline, the chat session and settings.

Layout:

- `src/` — the library, written in Verus; every function carries a contract
  that Verus proves. `src/text.rs` holds the string functions the rest is
  specified with.
- `tests/` — tests of the library on concrete values.
- `app/` — the program around it: the kernel process (configuration file,
  logging, SQLite memory, event bus, health endpoint), the desktop command
  line, and everything that reads devices, files, processes or the network,
  or computes with floating point.
