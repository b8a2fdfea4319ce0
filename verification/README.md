# command_center

The admin command center: a web gateway with operator accounts, role-based
access control, a live telemetry stream and a health monitor for upstream
services.

- `src/` is the verified library (Verus). It holds the access rules
  (`rbac`), the session store (`session`), password hashing through bcrypt
  (`crypto`), the decisions of the login and registration pages (`auth`),
  the control panel and navigation (`dashboard`, `layout`), the control API
  replies (`control`), the monitor's probe judgement and polling state
  machine (`monitor`), the telemetry frames (`telemetry`), database rows
  (`models`) and text helpers (`text`).
- `app/` is the server around it: routing, HTML rendering, database access,
  HTTP probes, websockets and timers. It hands the library plain values and
  performs the actions the library decides.
- `tests/` exercises the library on concrete values.
