# rosu_pp_verifier

A tool that compares the difficulty and performance attributes that osu-tools
(osu!lazer) computes with those of rosu-pp, for whole beatmap folders and for
scores taken from the public score dumps.

- `src/` is the library, proved with Verus: which modes and mod combinations
  are simulated, the command lines handed to osu-tools, how stored entries are
  delimited and found again, how score dumps are cut into scores and read as
  CSV records, which mods and mod settings can be handed to rosu-pp, how
  statistics are compared and what follows from that, and how mods,
  statistics and progress are shown.
- `app/` is the program around it: command-line parsing, files, memory maps,
  running osu-tools, JSON parsing, turning CSV records into scores, archiving,
  progress bars, and the floating-point comparison of attributes.
- `tests/` runs the library on concrete inputs.
