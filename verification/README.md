# rust_webserver

The request logic of a recording server that starts and stops media
pipelines for rooms, keeps a record per room in Redis and reports usage to a
pricing service.

- `src/` is the verified library (Verus): bearer tokens, JWT key ids, Redis
  requests, stream locations and pipeline commands, JSON framing of room
  records, usage reports, and the start/stop workflows as step functions from
  state and event to next state and action.
- `app/` is the actix-web server around it: HTTP, Redis I/O, process spawning,
  signals and the serde copies of the library's types.
- `tests/` exercises the library with the real outside crates linked.
