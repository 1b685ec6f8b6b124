# rem

Extract-function refactoring for Rust: given a byte range of a source file
and a name, the selected statements become a new function and the selection
becomes a call to it. Variables crossing the boundary get a passing
convention (by value, `&`, `&mut`), non-local `return` / `break` /
`continue` / `?` are reified through an auxiliary enum, uses of variables
received by reference are dereferenced, and a compiler feedback loop adds
lifetimes or dereferences until `cargo check` accepts the result.

## Layout

- `src/` — the library, written in Verus; its functions carry contracts
  and are verified, except four small trusted wrappers of outside code
  whose contracts are assumed: `text::push_char` (`String::push`),
  `text::uppercase` (`char::to_uppercase`), `lifetime_repairer::alphabetic`
  (`char::is_alphabetic`) and `syntax::syntax_walk` (the `ra_ap_syntax`
  parse and preorder walk).
  - `value_objects`, `entities`, `errors`, `events`, `dto`, `ports`: the
    domain data and the traits through which the use cases reach analysis,
    the file system, the compiler and the verifier.
  - `analysis`: the selection analysis decided from facts about the file:
    free variables passed as their uses ask (read, mutated, moved, used
    after), output variables, the non-local exits (resolving which loop a
    `break`/`continue` targets), awaits, and the generic parameters to
    forward with their bounds on the crate's own traits.
  - `ownership_oracle`, `control_flow_analyzer`, `code_generator`,
    `deref_rewrite`, `lifetime_repairer`: the domain services.
  - `use_cases`: the extraction and verification pipelines, generic over
    their ports.
  - `adapters`: the decision parts of the adapters (syntax rewriting,
    CHARON failure verdicts, cargo diagnostics).
  - `syntax` (the `ra_ap_syntax` walk), `search`, `selection`, `text`:
    helpers on character sequences.
  - `laws`: properties that span several functions.
- `app/` — the `rem` command line: argument parsing, logging, and the
  adapters that do I/O (rust-analyzer workspace loading and the gathering
  of facts about a file, `cargo check`,
  the file system, CHARON/AENEAS processes).
- `tests/` — tests of the library.
