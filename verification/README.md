# BryggIO, verified core

BryggIO controls a home brewery: sensors publish temperatures, controllers
turn them into heater power, actors drive the heater and the pump, and a
supervisor starts and stops these clients over a NATS pub-sub network. A
server variant runs the same control loop in one process, stores snapshots in
SQLite and serves them to a web UI.

This crate is written in Verus.

- `src/` is the verified library: subjects and their parsing, log levels,
  configuration records and their checks, DS18B20 addresses, the discrete
  part of the control tick, the brew bookkeeping of the snapshot writer, the
  thinning of stored readings, pseudo-PWM timing, actor cool-downs, the
  supervisor's registry of active clients with its start, stop and switch
  decisions and replies, and the version and download address of a
  supervisor release. Each public function carries a
  contract; the `law_*` proof functions state properties that relate several
  calls.
- `tests/` exercises the library on concrete values.
- `app/` is the program around it: configuration files, NATS and HTTP I/O,
  the database, GPIO and sensor files, and the real-valued parts (the
  controllers, the thermal simulation, temperatures and heater power).
  `app/main.rs` runs the server; `supervisor`, `sensor-box` and
  `list-sensors` as first argument run the other programs.
