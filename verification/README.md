# pydev_core

The engine of pydev, a one-click installer of a Python development
environment (uv, a Python interpreter through uv, VSCode with its Python
extensions, and the PATH changes), with its decisions proved in Verus.

## Layout

- `src/` is the verified library. It decides what to run and reads what came
  back: configuration defaults, proxy settings, per-platform paths and
  download names, the install plans of each component, the one-click plan,
  the PATH preview, status and profile blocks, the status detection from
  probed tool output, version ordering, and the network-test report. A
  function that computes states its result in its `ensures`. A function
  that reads the home directory, the application-data directory or the disk
  states what holds of every outcome and hands what it read to a `*_for`
  function (`bin_dir_for`, `uv::install_for`, `pathenv::apply_for`, ...)
  whose result is fixed for every value read. The laws of the library
  (version order, plan numbering, what the one-click flow installs, that a
  second PATH application changes nothing, newest-first Python listings)
  are public proof functions.
- `app/` is the `pydev-cli` program around it: argument handling, the config
  file (TOML), running processes, downloads, file-system work and probing
  the machine. It carries out the plans the library produces.
- `tests/` runs the library on concrete values.

The calls that the logic makes into `dirs` and `serde_json`, and into the
parts of std that Verus has no specification for, stand behind small
trusted items, each with a doc comment saying what is assumed of it:
`src/platform.rs` (the `dirs` directories and `Path::exists`),
`src/json.rs` (JSON pointer lookups) and `src/text.rs` (`str::to_lowercase`
and `String::push`).

Running a plan is a loop in the program, but each of its decisions is the
library's: `orchestrate::advance` says what follows a step's outcome (the
next step, the end, or a stop at the first failure), and
`orchestrate::run_stops_at_first_failure` proves what a whole run does.
