# curcat

The verified core of Curcat, a tool that digitises curves from images of
plots. `src/` is a Verus library; every function in it is proved against its
`requires`/`ensures` contract.

- `escape`, `export` — XML, HTML and Markdown documents and CSV bytes of an
  export table, escaping, extra-column checks, worksheet layout.
- `i18n`, `messages`, `prompt` — English/Russian text tables and the
  messages built from them.
- `config` — hex colours, image limits and their sanitising.
- `limits`, `decode` — planning image decoding against the configured and
  the hard limits (double-precision autoscaling, computed exactly on
  integers), raster decoding through the `image` crate, clipboard pixels.
- `transform` — quarter turns and mirror images of pixel buffers, and the
  record of applied transforms.
- `filters` — the box blur of the display filters and which filter stages
  run.
- `meta`, `dropped`, `clipboard` — image provenance, byte counts in binary
  units, aspect ratios, dropped files, clipboard captures.
- `loader`, `project` — what each report of the background image loader and
  of a project save does, and the status lines of opening a project
  (checksums in hexadecimal).
- `float` — the double-precision steps of autoscaling and of the
  aspect-ratio text (quotients, square roots, conversions, products,
  three-decimal printing), computed exactly on integers with round-half-even.
- `input` — global keyboard shortcuts and file-dialog outcomes.
- `trace` — when automatic tracing may run and what it reports.
- `calibration`, `axis_input`, `ui`, `kinds` — calibration targets and
  labels, axis value input filtering, pointer-mode chips and status timers.

`tests/` runs the library with the real outside crates. `app/` holds what
the library cannot: reading and writing files, the configuration file,
rendering SVG, the colour adjustments of the display filters, the walk of
automatic tracing, the system clipboard and locale, and messages that print
floating-point values.
