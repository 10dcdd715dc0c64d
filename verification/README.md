# niri_cursor

Configuration and cursor-effect logic of a niri-based compositor, written
in Verus and verified.

`src/` is the verified library:

- `text` — character-sequence specifications (Unicode whitespace trimming,
  repeated prefix/suffix stripping, splitting, `u8` parsing) and the
  range-based code that computes them.
- `color` — the particle colour: `"R,G,B"`, `rgb(...)`/`rgba(...)`, or any
  CSS colour (through `csscolorparser`).
- `trigger` — the `click-trigger` setting and the routing of button presses.
- `decode` — the checks made on single-string configuration nodes and the
  problems they report, in order.
- `config` — the miscellaneous configuration sections, their defaults and
  how partial sections are merged into full ones, with the laws of merging.
- `effect` — the runtime settings taken from the `cursor-effect` section,
  the per-seed hash, the scroll ring idle clock and the caps on the trail
  and on the scroll rings.
- `glyphs` — the glyph atlas layout.

`app/` holds what cannot be verified: `knuffel` decoding, the `f32`
particle simulation, the pango/cairo glyph atlas and the per-frame list of
glyphs to draw.
