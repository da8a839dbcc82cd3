# eas-weather-rs

The configuration, validation and HTTP rules of the EAS weather API server,
written in Verus so that each rule is checked against its contract.

- `src/` — the verified library: raw and validated configuration
  (`raw_config`, `logging*`, `database`, `db_*`, `webserver*`), the reports
  logged on the raw configuration, the database connection retry loop
  (`connect_retry`), the MySQL adaptor's decisions (`mysql_adaptor`), the
  tracing filter, the HTTP rules (`http`: API key guard, error bodies, route
  prefixes, health answers, request/response bodies) and the service layer
  over the adaptor ports (`ports`, `services`).
- `tests/` — tests of the library on concrete values.
- `app/` — the server program: command-line parsing, configuration loading
  with figment, logging with tracing, the MySQL pool with sqlx and the axum
  routes, all deciding through the library.

Not reproduced: the alert API (its domain types and handlers), the
`/conf/app` endpoint, the Swagger UI and OpenAPI document, the poem server
and the database migration tool.
