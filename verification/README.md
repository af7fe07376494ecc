# acreetionos

The decisions of the terminal's GTK front end, verified with Verus.

- `src/keys.rs`: which bytes a key press writes to the terminal, and whether the
  press is consumed.
- `src/palette.rs`, `src/render.rs`: the colour palette, how a cell's colour
  resolves to RGB, which grid line each viewport line shows, and which cells of the
  viewport are drawn.
- `src/search.rs`: the search bar's visibility and focus, and its match counter text.
- `src/tabs.rs`: which tab closing the current tab removes.

`app/` holds the GTK widgets, the terminal and PTY set-up and the OpenGL drawing,
which call into the library for these decisions.
