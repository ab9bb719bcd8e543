# banc

*banc d'essai*: a host-evaluated hardware-in-the-loop test framework for
embedded Rust. A `cargo test` suite on the host drives the device under test
through a debug probe, assistant boards that act as off-target peripherals and
observers, and bench instruments. Assertions run on the host, against what was
observed on the wire. On machines without a rig, suites report **ignored**,
not passed.

`src/` holds the rules and state machines behind that, verified with Verus:

- the rig: `config`, `locate`, `rig` (acquisition, lock, tokens)
- the wire: `wire`, `frame`, `net`, `lease`, `lease_client`, `lease_laws`,
  `icd`, `node`
- a run: `runner`, `device`, `evidence`, `expect`, `instrument`, `results`
- the target: `target`, `rtt`; the reference assistant's pins: `board`
- the command line: `cli`, `doctor`
- `text`: the string building blocks that messages are made of

Times are numbers that the caller reads off its clock, paths are text, and
whatever comes from outside (a file, a socket, a child process) is handed in
as a value. `app/` does that: it is the `banc` program and the fixtures that
suites use, in ordinary Rust. `app/firmware.rs` shows how the tasks of the
assistant board use `board`; nothing builds it, and it cannot run on the board
as long as the library needs `std`. `tests/` runs the library.
