# booru_wallpaper

A wallpaper fetcher for booru imageboards (Danbooru, Gelbooru, Rule34,
Safebooru), split into a verified library and a thin program around it.

- `src/` is the library, written in Verus. It holds the decisions that can be
  stated over plain values: how command-line values override the config file,
  where the settings are read from and that a config file must be a `.toml`
  file, the search sent to a board, which posts become candidates, whether a
  picture's size suits, how a download is prepared for the `wallpaper` or
  `awww` backend, the `ffmpeg`/`ffprobe` arguments, the quarter turn of a
  portrait picture's pixels, the names of saved files and cache directories,
  whether the program stops or sleeps and runs again after a run, and, as two
  step machines, the handling of one candidate and the whole run with its
  retries. Every public function states its result in its contract, and the
  laws of the library (retry budget, effect of the resolution switch, dry runs
  never setting a wallpaper, distinct cache directory names, failed runs not
  stopping periodic rotation, and others) are proof functions.
- `app/` is the program: argument parsing, reading and writing files, the
  board clients of `booru-rs` (which also enforce Danbooru's limit of two
  search tags), HTTP downloads, decoding and encoding pictures, creating the
  cache directory with its process-wide counter, running `ffmpeg`, `ffprobe`
  and `awww`, setting the wallpaper, and the single-precision aspect-ratio
  comparison, whose verdict the library takes as an argument.
- `tests/` runs the library on concrete values.
