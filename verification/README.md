# ascii_player

A small terminal music player that controls MPD or an MPRIS player and shows
the cover of the current track as ASCII art.

- `src/` is the library, verified with Verus: command line values
  (`args`, `decimal`), the interface state machine (`app`), songs read from
  MPD (with the audio file's tags parsed by lofty) or MPRIS (`song`, `text`), where covers come from (`cover`), drawing
  covers (`ascii`, `imaging`) and the player's track-change wait (`player`).
- `app/` is the program around it: command line parsing with clap, the
  terminal with ratatui and crossterm, the MPD and MPRIS connections, file
  and network access (reading files, HTTP requests), and running `chafa`.
- `tests/` runs the library on concrete values.
