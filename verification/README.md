# squid_dashboard

The backend of the Squid bot's web dashboard, as a verified library (`src/`)
and the Rocket server around it (`app/`).

- `src/models`: tags, their options and the rules a new tag meets; guilds,
  users and the decision whether a request may act on a guild.
- `src/database`, `src/user.rs`, `src/oauth.rs`: the decisions of the HTTP
  handlers and the route tables.
- `src/keys.rs`, `src/cache.rs`: the cache's key schema, lifetimes and
  cache-aside steps; `src/numeric.rs`: decimal ids.
- `src/routing.rs`: route tables (method, path, rank, body format,
  handler), which `app/` checks Rocket's routes against at launch.
- `src/validation.rs`, `src/json.rs`: the calls into `regex`,
  `twilight_validate` and `serde_json`, with their contracts.
- `app/`: Rocket, MongoDB, Redis, Discord's HTTP API and OAuth2.

`app/db/mongo.rs` needs the `mongodb` crate (version 2), which
`Cargo.toml` does not list: its sources with their dependencies are large
to fetch. Add `mongodb = "2"` under `[dependencies]` to build the server;
the library and its tests do not need it.
