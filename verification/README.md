# hover_render

Renders the messages that an IDE shows when the cursor hovers over code: the types of
expressions and patterns, the error types around a `?`, the documentation of definitions,
keywords and builtin types, and the descriptions of lints and features.

- `src/` is the library. It takes what is known of the program as plain values and returns the
  text of the hover and the definitions that it leads to. The functions state what they
  return, and Verus proves it. One step is trusted instead: `text::join_strings` hands the
  names on a path to `Itertools::join`, whose result is stated there without proof.
  `src/laws.rs` holds what follows for all hovers, such as that the types in the lines for a
  dereference end in the same column.
- `tests/` runs the library on examples.
- `app/` reads those values from the analysis of a program and calls the library. It needs the
  crates `hir`, `ide_db` and `syntax`, which `Cargo.toml` does not name.
