# futures_await

Runtime support and expansion rules for async/await written with
generators, as a verified library.

- `src/rt/`: the shims that turn generator steps into polls of futures and
  streams (`shim`), the loop decisions of `await!` and `#[async] for`
  (`steps`), boxing on demand (`maybe_box`), and `IsResult`.
- `src/expand/`: what the `#[async]`, `#[async_stream]` attributes and the
  block macros decide about the text they receive (`plan`, reading it with
  `syn` in `read`, and taking what each read gave in `input`), and the rules
  behind that: argument rebinding (`args`), attribute
  arguments and return types (`attrs`), fresh names (`text`), spans and
  `!` placeholders (`tokens`).
- `app/`: the token-level expansions over `syn` and `quote`, and futures and
  streams that drive the shims.
