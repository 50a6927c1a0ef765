# alchemy-cleaner

A read-only macOS health diagnostic: nine checkers (system info, CPU, memory,
disk, processes, startup items, battery, network, crash logs) each turn what
the machine reports into findings with fixes and score deductions; the
deductions give a 0–100 health score, a verdict, and advice on whether an
erase and reinstall could help.

Layout:

- `src/` — the library, verified with Verus. Every checker's assessment is a
  function from plain readings (command output, byte counts, file listings)
  to a `CheckResult`, specified exactly by a spec function; the score, the
  verdict, the erase advice, the plain-text report and the state of the
  interactive view are specified the same way. Public `law_*` proof
  functions state what holds across calls (the score stays in 0–100 and never
  rises with more deductions, erase advice needs evidence of corruption,
  every checker's findings carry fixes and deductions exactly when they are
  problems, printed numbers parse back).
  Counting by name (crashing apps, noisy log processes) is done over
  sequences (`ranking::tally`, `top_tally`, `top_indices`) rather than a
  `HashMap<String, _>`: Verus specifies no lookup by `String` key that a
  proof could use, and sequences also make the order of ties definite
  (first appearance).
- `app/` — the program: argument parsing, running commands and reading the
  system, the threads, the terminal UI and the report file.
- `tests/` — scenarios run against the compiled library.
