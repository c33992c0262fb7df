# genocide

A Diablo II (1.14d) helper: an overlay that draws configurable text lines
on the game screen and the automap, a "chicken" module that leaves the game
when life or mana drops below configured thresholds, and automap reveal.

- `src/` is the verified library (Verus): configuration records, the chicken
  rules, text/box placement as drawing commands, template rendering through
  `tinytemplate`, area reveal planning, and the code patches that hook the
  game's drawing routines (their byte encoding and their install/restore
  cycle), and which DLL the injector loads.
- `app/` is the DLL around it: the game's memory layout and routines, the
  hooks, memory writes, JSON configuration files, logging and the injector.
  Most of it only builds for 32-bit Windows.
- `tests/` runs the library on concrete values.
