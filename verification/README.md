# bigcp

`bigcp` copies directory trees. It copies what is new or different, repairs
metadata that drifted, never deletes what only the destination has, resumes
large files from verified checkpoints, and accounts every object it saw exactly
once.

## Layout

- `src/` is `bigcp_core`: everything that the program decides, as functions and
  state machines on plain values, each with a contract that Verus proves. It
  touches no file, thread or clock.
- `app/` is the program: it performs the operations that the library decides on,
  hands back what came of them, and serializes the log, the journal and the
  report.
- `tests/` runs the library on concrete values.

## How the parts talk

A copy is a conversation. A function such as `preflight`, `copy_tree`,
`copy_sparse` or `run_copy` is given the last step and the reply to it, and
returns the next step. What it promises is stated over the views of its state:
which step follows, and what the accounts hold then. Properties of whole runs,
such as that a checkpoint attests exactly the prefix that was written, or that a
dry run creates nothing, are public proof functions next to the functions they
speak of. That a comparison without a mismatch means equal trees is in
`equality`.

The outside code that the library calls is declared in `hashing`, `journal`,
`path` and `text`; the doc comment of each declaration says what is taken on
trust.
