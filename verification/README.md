# incan_backend

The verified core of the Incan compiler's backend and command line.

`src/` is the library. Every function in it is verified with Verus against its contract, but for a few calls into the
standard library and `sha2`, whose contracts stand beside them.

- `lowering` turns syntax trees (`ast`) into an intermediate representation (`ir`). Expressions and headers are
  lowered by other passes; lowering asks for them and goes on with their answers.
- `replacement` executes Body IR (`body_ir`) directly: what is admitted, what it means, and what is recorded of an
  execution. `likeness` says when two pieces of Body IR are alike, `spelling` how they are spelled.
- `shadow` compares a direct execution with a built program: how results are framed, how failures are classified, what
  is compared, and which evidence survives.
- `selection` declares backends and receipts; `tampering`, `changed_fields` and `fragments` state what their identities
  cover.
- `scanners`, `rust_emitter` and `project` find out what a program needs, write Rust, and lay out Cargo projects.
- `cli` holds the decisions of the command line: arguments, collection of modules, formatting, reports, and the
  inspection of C bindings.
- `format` says what formatting means for a source.

Functions whose names begin with `law_` state what holds across functions.

`app/` is the input and output around the library, with the front end of the language as a parameter. `tests/` holds the
tests.
