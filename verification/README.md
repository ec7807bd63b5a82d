# netplay

Verified logic of a handful of small network services and tools, with the
I/O around it kept apart.

- `src/` is the library, each function with a proved contract: packed-BCD fields (`bcd`),
  CPU-model detection from cpuinfo lines (`cpuinfo`), the greeting writer
  (`greeting`), the HTTP handler replies (`http`), a JSON document model
  (`json`) with its reading and writing, OCPP 1.6 frame reading and dispatch
  and BootNotification answers (`ocpp`),
  the WebSocket chat relay and console client decisions (`relay`), and
  release-asset selection (`release`). `text` and `clock` hold the thin
  wrappers over std string operations and the wall clock.
- `app/` is the program: one subcommand per service or tool, doing sockets,
  files, HTTP and the serde copies of the HTTP bodies, and asking the library
  for each decision.
- `tests/` run the library on concrete values.
