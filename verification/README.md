# vatsim-api

Types, parsers and a mock server state for the VATSIM network APIs (data
feed, slurper and Connect), written in Verus with their behaviour stated in
contracts and proved.

## Layout

- `src/` — the verified library.
  - `types` — CIDs, facilities and ratings (codes, data feed IDs, parsing);
    `types::datafeed`, `types::connect` and `types::slurper` model the three
    APIs. The slurper CSV line is parsed and written here, and a written line
    is proved to read back as the connection it came from.
  - `mock::state` — the mock server's state: keyed collections, the seed
    snapshot and its reset, pending codes and issued tokens, the data feed
    and slurper responses it renders.
  - `mock::oauth` — the Connect endpoints as transitions of the state, with
    the authorization flow, single-use codes and token revocation on reset
    proved.
  - `mock::store` — lookup, removal and insert-or-replace on keyed lists.
  - `client` — the HTTP client's decisions: configuration, and the data
    feed cache as a state machine (`FeedCache`: serve the stored feed while
    fresh, else fetch from the override or a known mirror, else discover the
    mirrors), with its laws proved; where the slurper is fetched from.
  - `text`, `number` — trimming, splitting, line handling, and numerals.
- `app/` — plain Rust around the library: JSON shapes with serde, the async
  `reqwest` client, the `axum` mock server and its command line.
- `tests/` — tests of the library.

Coordinates are held as their decimal text and timestamps as RFC 3339 text
in the library; the JSON shapes in `app/` hold them as `f64` and
`chrono::DateTime<Utc>`.
