# brengin

The core of a small game engine for 2D sprites in 3D scenes with an
immediate-mode UI, written in Verus: its rules carry contracts, and Verus
proves that the code meets them.

## Layout

- `src/` — the verified library.
  - `color` — colors packed as `0xRRGGBBAA` and the parser of `#rgb`,
    `#rgba`, `#rrggbb` and `#rrggbbaa`.
  - `timer`, `game_loop` — countdown timers and the pacing of the game thread.
  - `plugins` — which plugins an app was built with and which it requires.
  - `oneshot` — a channel that carries one value at a time.
  - `input` — keyboard and mouse button state, advanced once per frame.
  - `assets`, `asset_registry` — assets stored by id, per-type statistics
    (count and summed reference counts), the load state of every requested
    asset and the search for a file below the base paths.
  - `image_data` — decoding image files to RGBA pixels.
  - `sprite_sheet` — the grid cell of a sprite index.
  - `ui` — rectangles and layout, widget ids, the interaction state machine
    (hover, active, drag, scroll, context menu), buttons, text fields,
    scroll areas, windows and their stacking order, panels, context menus,
    outlines, label lines, themes, fonts, and the drawing state that
    containers change and restore.
- `tests/` — tests of the library on concrete values.
- `app/` — what runs around the library: error messages, file loaders,
  reference-counted handles, apps built out of plugins, floating point math
  (transforms, rotations, sprite boxes, relative lengths), text editing and
  the game thread.

Where the library calls an outside crate (`bytemuck`, `image`, `rustybuzz`)
or a part of `std`
that Verus has no specification for, the call sits in a small function whose
contract is trusted; its doc comment says what is claimed.
