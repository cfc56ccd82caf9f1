# dreamstack

Dreamstack is an incremental hacking game. This crate is its rules, written
in Verus and verified:

- `text`: decimal and zero-padded numbers, string comparison, prefix
  stripping and white-space trimming.
- `clock`: the in-game clock and its `HH:MM:SS` time of day.
- `hack`: a running hack and its progress line.
- `terminal`: the home terminal session and its commands (`netscan`,
  `connect <hostname>`, `scan`, `nuke`, `npm i -g backdoor`, `hack`, `home`).
- `game`: the flow of a run: work shifts, the terminal, hacks, the editor.
- `standings`: company standings, found again by name.
- `save`: which save versions can be read and what older sessions become.

`app/` is the program around it: the egui window (native, or in the
browser when built for `wasm32-unknown-unknown`), real time, the player's
fractional stats, JSON save files (a file, or the browser's local storage),
logging and the Rhai script runner.
