# Cadence

The state machines and rules of Cadence, a small Spotify player, written in
Verus with their contracts proved.

- `src/` is the library: the player, the account session, the library of
  tracks and playlists, navigation, the catalog pages, the queue and radio,
  the playback clock, the artwork cache's budget, and the decisions of the
  backend worker. Every function states what it returns or changes; laws
  that span calls stand as `lemma_*` proof functions beside them.
- `tests/` runs the library on concrete inputs.
- `app/` is the process around it: the single-instance socket, the
  credential thread, the files the model is saved to, the event pump, and
  the floating-point layout and audio arithmetic.

Times are wall-clock milliseconds handed in by the caller, so nothing in
the library reads a clock.
