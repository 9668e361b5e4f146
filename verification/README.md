# hit_it

Hit It is a rhythm game: the notes of a song's chart scroll towards four
arrows, and pressing an arrow within 200 ms of a note of its direction scores.

- `src/` is the verified library: the game's screens and menus (`game`), the
  scoring of presses against a chart (`scoring`), the chart file format
  (`song`), the keys (`keyboard`), the audio thread's commands (`audio`) and
  the channel that carries them (`channel`), the clock (`clock`), and the
  laws that hold across these (`laws`).
- `app/` is the window, the pictures, the sound thread and the main loop.

A chart file `<song>.txt` holds one note per line, `time,direction`, where
time is in milliseconds from the start of the song and direction is 0 (left),
1 (down), 2 (up) or 3 (right); empty lines are skipped.
