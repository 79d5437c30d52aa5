# Muse

Muse is a terminal lyric viewer. It follows the MPRIS player that is
playing, shows the song's synchronized lyrics from lrclib.net with the line
being sung highlighted, and themes the progress bar and the lyrics from the
album art.

## Layout

- `src/` is the `muse` library, written in Verus and verified: the LRC
  parser, the lyric cache key, the configuration's colours, the binning of
  pixels, the preparation of album art, the player watcher's decisions
  (which player to follow, how the playback position is predicted and
  corrected, what a poll leads to), and the display's state, key and mouse
  handling, scrolling and view models. Each public function states what it
  returns in its contract; the `law_*` proof functions state properties that
  span several functions.
- `tests/` runs the library on concrete values.
- `app/` is the program around it: the terminal, D-Bus, the network and the
  files, and the floating-point colour science that generates themes.
