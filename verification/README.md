# beverly

The decision-making core of the Beverly UI component library, verified
with Verus: how each widget's state moves under pointer and keyboard input,
what it announces, which theme colours paint it, and the request a form
sends.

- `src/` holds the verified library, one module per widget family
  (`input`, `dropdown`, `modal`, `file_input`, `search`, `card`, `table`,
  `button`, `animation`, ...) plus `text` for the character-level helpers
  they share. Contracts are stated over `Seq`, `Set` and `Map` models; the
  public `lemma_*` proof functions state the laws that hold across calls.
- `app/` is ordinary Rust around it: HTTP submission of forms, the native
  file picker, saving dashboard layouts to disk, the table JSON contract,
  completion-provider registries, and the floating-point geometry and
  easing that the renderer needs.
- `tests/` exercises the library on concrete values.
