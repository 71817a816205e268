# tf2_terminal

The verified core of a Team Fortress 2 trading terminal: the item model,
the decoding of Steam inventories, trade offers and schema data, the
backpack.tf listing feed and retry policy, the query text and answers of
the local SQLite repositories, the CSV/XLSX/PDF export rules, the Steam
OpenID login checks, and the capability rules of the WebAssembly plugin
host. Every function in `src/` is verified with Verus against its
contract, except the small trusted wrappers around outside calls
described below; the laws that tie functions together are public proof
functions (`lemma_*`).

Layout:

- `src/` — the verified library. `domain/` holds the item, SteamID and
  plugin capability models; `infra/` holds one module per outside system
  (Steam, backpack.tf, the database, exports, configuration, the
  credential store, plugins); `text.rs` holds the string and integer
  helpers the rest relies on, specified after `std`'s behaviour.
- `tests/` — tests run against the compiled library.
- `app/` — the application layer: database access, HTTP and websocket
  clients, the login listener, file and credential-store access, the PDF
  drawing and the floating-point price rollups. It calls the library for
  every decision.

Calls into outside crates made from `src/` (`csv`, `rust_xlsxwriter`,
`url`, and a few `std` functions) go through small trusted wrappers whose
contracts state what the crate's source shows; each is marked
`#[verifier::external_body]` and documented where it stands.
