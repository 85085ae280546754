# optiosk

Shrinks osu! skin archives (`.osk`): drops files the user does not want,
keeps one media file per path, converts sound to Ogg Vorbis, optimises PNG and
JPEG images, and writes a new archive.

## Layout

- `src/` — the library, verified with Verus.
  - `lib.rs`: file kinds, their extensions, classification by name and by content.
  - `cli.rs`: skin item and tweak flag sets, parsing of `--keep` and `--tweaks`,
    argument validation.
  - `text.rs`: whitespace, trimming, splitting at commas, substring search.
  - `paths.rs`: the path operations taken from `camino` and `std`.
  - `pack.rs`: which archive entries survive, under which name, how they are
    stored; one media file per path.
  - `order.rs`, `sorting.rs`: the order media files are sorted in, and the
    parallel sort.
  - `aud.rs`: the step-by-step conversion of sound to Vorbis, MP3 stream
    parameters, Vorbis stream optimisation.
  - `img.rs`: PNG optimisation, and keeping only results that are smaller.
- `app/` — the program: command line (clap), reading and writing archives,
  threads, and the codecs that work on floating-point samples.
- `tests/` — tests of the library.

## Images without pixels

An image with no pixels is not swapped for a 1×1 PNG: that would take an emptiness
test and an embedded picture, and the program has neither. Every image goes
straight to the optimiser.
