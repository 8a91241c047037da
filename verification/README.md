# webcam-sharedtexture-core

Verified core of a tool that captures a webcam, applies crop → rotate → flip →
scale, and shares the result as a Syphon (macOS) or Spout (Windows) texture.

- `src/` — the library, written in Verus and verified:
  - `frame`, `transform` — BGRA frames and the transform chain, with the laws
    of flips, rotations, crops and scaling in `transform::laws`;
  - `capture`, `selector`, `cli` — device records, device selection by index,
    id or name, format negotiation decisions and the command-line value parsers;
  - `pipeline`, `publish`, `syphon`, `spout` — one capture/transform/publish
    turn, publish errors and the bridge parameters;
  - `gui`, `icon` — the pure parts of the graphical front end (persisted
    selection, segmented controls, crop re-fitting, frame-rate meter, license
    filtering, menu actions, tray icon decoding);
  - `licensing`, `bundle` — third-party notices (normalise, merge, sort,
    render) and packaging layout, property list, README and tool arguments;
  - `text` — the string operations the rest is built on.
- `app/` — the command-line program: argument handling, the camera through
  nokhwa, the terminal prompt and the Ctrl+C loop.
- `tests/` — tests run against the compiled library.
