# limestudio

The verified core of LimeStudio, an audio plugin framework whose UI is a
"visible compiler": a reactive surface over an audio graph.

- `src/` — the logic, verified with Verus: stable identifiers, the trust ledger,
  the forensic time-travel history, selection and keyboard focus, parameter
  stores and drag sequencing, signal buffers and waveform collection, hex colour
  notation, crash-report naming and the LimeLint checks.
- `tests/` — tests of the library on concrete values.
- `app/` — the `cargo lime-lint` command line and the floating-point, I/O and
  threading glue (geometry, camera, spring motion, Oklab colour, pointer input,
  observation ring buffers, crash hook) around the library.

Floating-point values that the core only stores or forwards (parameter values,
signal samples, pointer coordinates) are carried as their IEEE-754 bit patterns.
