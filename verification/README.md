# netbird-hawk

A per-user daemon that rotates through an ordered list of NetBird profiles at a
daily local wall-clock time, with its scheduling, recovery and reporting logic
verified by Verus.

- `src/` is the verified library: profile validation and time parsing
  (`model`), circular rotation and due-date scheduling (`scheduler`, `calendar`),
  reading the active profile from `netbird status` output and sanitizing every
  NetBird failure (`netbird`), the write-ahead occurrence state machine and the
  worker's decisions (`daemon`), the controller's checks, records and reports
  (`controller`), and the per-user file locations (`state`, `platform`).
  Calendar and zone arithmetic (chrono, chrono-tz), UUIDs, JSON member lookup
  and a few std conversions are reached through trusted wrappers whose
  contracts are stated in each module.
- `app/` is the program around it: command-line parsing, file and lock I/O,
  running NetBird and launching the detached worker, the async loops and
  logging. It performs what the library decides.
- `tests/` exercises the library from outside.
