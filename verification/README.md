# mia_agent

The core of Mia, a terminal AI agent, as a verified library. Verus proves
the functions under `src/` against their contracts. The calls into outside
crates and into std functions that Verus has no specification for (JSON
parsing, the clock, UUIDs, path handling, text wrapping and widths, table
and size formatting, lower-casing, the search path) go through small
trusted wrappers marked `#[verifier::external_body]`: their contracts are
believed, not proved, and each says in its doc comment what it claims.

- `src/` — the library. Tools and their registry (`tools`), what a tool
  call runs (`plans`), tool arguments (`json_args`), memory files
  (`memory`), sessions (`sessions`), the agent turn (`agent`), the system
  prompt (`prompt`), the chat screen's state, layout and messages (`chat`,
  `layout`, `render`, `prompt_box`, `commands`), configuration (`config`,
  `providers`, `setup`), numbers (`numbers`) and text primitives (`text`).
- `tests/` — tests of the library on concrete values.
- `app/` — the `mia` program: command line, files, network, terminal, and
  the loop that performs what the agent turn decides.
