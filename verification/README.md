# languages (Python adapter core)

The verified core of the editor's Python language-server adapter (Pyright).

- `src/server.rs`: the server's names, its script path and launch arguments,
  and two small state machines: fetching (and, when needed, installing) the
  latest Pyright, and looking up one installed earlier. The editor performs
  each requested action (npm, Node, file system) and reports back.
- `src/completions.rs`: trimming Pyright's sort texts, the kind messages, and
  the styled labels of completion items.
- `src/symbols.rs`: the Python source line and label ranges for symbols.
- `src/label.rs`: label types and UTF-8 length lemmas.
- `src/tasks.rs`: the tasks offered for Python files.
- `app/lib.rs`: the `LspAdapter` implementation that drives the above against
  the editor's own crates.
