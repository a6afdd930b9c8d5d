# nomic_rest

A REST gateway for a Nomic node, in Cosmos SDK style. The library (`src/`)
computes every route's answer from what the node reports, as JSON text, and
Verus proves each answer equal to its specification:

- `json`, `number`: JSON text and decimal numbers.
- `codec`: base64, hex, chrono and bitcoin behind trusted wrappers; the clock.
- `staking`, `delegations`, `rewards`, `accounts`: the Cosmos routes.
- `tx`, `query`: transaction broadcast and raw ABCI queries, with the query cache.
- `checkpoints`: the Bitcoin bridge routes.
- `routes`: the fixed routes and the CORS headers.

`app/` is the web server: it queries the node, hands the library plain values
and returns the library's text.
