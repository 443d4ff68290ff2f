# osp

Open Shop Protocol (OSP): shops publish `/.well-known/osp`, `/shop.json` and
`/products.json` so that any index can discover and list their products.

- `src/protocol/`: the protocol's documents (`ShopManifest`, `ProductListing`,
  `Product`, `WellKnownOsp`) and the rules a manifest and a product must follow.
- `src/node/`: the decisions of a shop node: its configuration and admin
  password, the checks on what an administrator submits, the rows it stores,
  the documents it serves from them, and proofs of what these keep true
  (`consistency.rs`).
- `src/text.rs`, `src/web.rs`, `src/json.rs`: text helpers, and the calls into
  `url` and `serde_json`, each with the contract the library relies on.
- `app/`: the HTTP server (axum, sqlx on SQLite), which reads requests and rows,
  asks the library what to do, and writes the answers.

Verus verifies every function in `src/` against its contract, except the
small `external_body` wrappers that call `url`, `serde_json`, `argon2`,
`rand_core` and `uuid`: their contracts are trusted, and each one's doc comment
says what it claims of the outside function.
