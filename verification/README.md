# cosmic_quake_term

A quake-style drop-down terminal for the COSMIC desktop. The decisions of the
application are a verified Verus library; the program around it (windows,
Wayland, processes, the configuration store) lives in `app/`.

- `src/text.rs`: white-space splitting, joining, base names, string equality.
- `src/action.rs`: the `Toggle`/`Settings` actions and the command line.
- `src/config.rs`: the settings and their defaults.
- `src/process.rs`: which arguments start a terminal under a known app id.
- `src/ipc.rs`: the toggle request sent to a running instance.
- `src/wayland.rs`: following the terminal's toplevel window, and the
  requests that minimize or activate it.
- `src/quake.rs`: the application state machine, from message to next state
  and the outside work it asks for, with its laws.
- `tests/`: tests of the library on concrete values.
