# webpulse

The verified core of WebPulse, a self-hosted HTTP uptime monitor.

`src/` is a Verus library: the rules of the service with their contracts and
proofs. It covers monitor validation and the merging of partial updates, the
classification of HTTP probes into up and down checks, heartbeat status by the
time since the last ping, error answers (status codes, JSON bodies, escaped HTML
fragments), the dashboard's view of a monitor with its text chart of recent
checks, and the configuration defaults. Calls into `chrono`, `uuid`, `reqwest`
(its URL parser and status codes), `serde_json` and a few `std` functions sit
behind small trusted wrappers whose contracts name what those calls return.

`app/` is the service around it: configuration file, SQLite store, HTTP probes,
scheduler, JSON API, server-sent events and the htmx dashboard.

`tests/` exercise the library on concrete values.
