# cdp

Command-line tools of the Composers Desktop Project sound-processing
system (`synth wave`, `pvoc anal`, `sndinfo`, `housekeep`), with their
decision logic verified by Verus.

## Layout

- `src/` — the verified library:
  - `params/` — the argument grammar: mode words, command specs, and the
    parse plan (which words are input files, parameters, option flags and
    variant flags, and which grammar error a command line makes);
  - `cli.rs` — launcher and `cdp` front-end decisions, routing of
    programs and sub-commands, what a command does before parsing;
  - `error.rs` — command failures and the exact text a finished run
    prints;
  - `data.rs` — the number tokens of text data files;
  - `mix.rs` — the grammar of mix files: lines read and their numbers,
    words, field order, level and pan word forms, channel-count rules;
  - `sndinfo/` — calendar dates of `ctime`, the largest quiet stretch,
    listings, the count lines of the reports, input checks;
  - `housekeep/` — channel layouts, backup concatenation, bundling,
    sorting into groups, the removal scan, re-specification rules;
  - `pvoc/` — analysis window settings and frame counts;
  - `registry.rs` — the table of commands and modes.
- `tests/` — tests of the library, run against the compiled crate.
- `app/` — the front ends themselves: reading and writing sound files,
  the floating-point signal processing (oscillator, FFT, phase-vocoder
  analysis, levels and durations), printing and exit codes.
