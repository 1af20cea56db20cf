# runupdate, verified core

`runupdate` runs `snap refresh`, `apt update`, `apt upgrade -y` and
`apt autoremove -y`, and can grant itself the Linux file capabilities those
commands need so that they run without `sudo`.

- `src/` is the library, proved with Verus:
  - `caps`: the required capabilities, the bounding set, which capabilities
    are available or skipped, the `setcap` specification, and the count of
    ambient raises that succeeded;
  - `update`: the update commands, the verdict on each command's outcome, and
    a run as a sequence of recorded outcomes with its failures;
  - `cli`: the mode chosen by the command line and the decisions of `setup`
    and `teardown`;
  - `text`: joining text with a separator.
- `app/` is the program: the system calls (`prctl`, `geteuid`, `setuid`,
  `setgid`), process spawning and all printing.
- `tests/` runs the library on concrete values.
