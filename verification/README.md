# imvic

An interactive terminal image viewer (SVG and raster formats) that draws through the Kitty
graphics protocol, directly or through a tmux passthrough tunnel. The decisions the viewer
makes are a library proved with Verus; the program around it does the I/O.

## Layout

- `src/` — the verified library.
  - `cli` — frame-rate cap and background colour arguments.
  - `decoder` — format sniffing (magic bytes, extensions), match scores, the order in which
    decoders are tried and the fallback between them, and raster decoding (through the
    `image` crate) into RGBA frames.
  - `display::transport` — direct and tmux transports: DCS passthrough framing, pane geometry
    replies, transport detection.
  - `display::backend` — Kitty graphics escapes (chunked Base64 transmission, Unicode
    placeholder grid, alternating image ids), the `GraphicsBackend` plugin contract and the
    choice of a backend; PNG and Base64 encoding come from the `image` and `base64` crates.
  - `display::hud` — the status line.
  - `display::layout` — the pixel size of a cell and of a frame.
  - `input` — mouse and key events to viewer actions, the input registry, and the per-frame
    event coalescer.
  - `watcher` — the trailing-edge debouncer for live reload.
  - `text` — byte and string helpers shared by the modules above.
- `app/` — the executable: argument parsing with `clap`, terminal setup with `crossterm`,
  the floating-point camera, rasterisation with `resvg` and `image`, the file watcher with
  `notify`, and the registry of boxed graphics backends.
- `tests/` — tests of the library.

Each public function states its result in its `ensures`; the laws of the library (for
example that tmux unwrapping undoes wrapping, or that Base64 chunks reassemble into the
payload) are public proof functions beside the code they speak of.
