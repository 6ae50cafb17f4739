# pa

Starts the processes of a configuration side by side, waits for what they depend on, restarts
them by policy, and prints their output behind timestamps and coloured names.

- `src/`: the library. It decides what is run, when, and what is printed, with contracts that
  Verus proves. Work that waits on the outside is driven by state machines: the state says what
  is to be done next, and the caller hands back what came of it.
- `app/`: the program. It reads files, starts processes and waits for them.
- `tests/`: tests of the library.
