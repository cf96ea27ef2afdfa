# user_service

A user account service: registration and listing of accounts over HTTP,
request logging, a coloured log line format, settings loading and a few
NATS/Kafka helpers.

- `src/` is the library, verified with Verus: request validation, the
  decision steps of the account endpoints, paging, response envelopes, log
  line layout, settings sources, profile and language codecs, and the
  connection-slot bookkeeping. Calls into `validator`, `libreauth` and
  `ansi_term` sit behind small trusted wrappers whose contracts say what
  the library relies on.
- `app/` is the process around it: settings loading, tracing set-up, the
  database (diesel) and client connections, and the actix-web server that
  runs the library's step functions and performs the I/O they ask for.
- `tests/` exercise the library on concrete values.

Not in this build: TLS for the HTTP server, Kafka and NATS clients and
consumers, OpenTelemetry tracing and Prometheus metrics (their crates are not
dependencies, or do not build here), and translated success messages (the
locale files are not part of the tree).
