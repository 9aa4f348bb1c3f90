# oriterm

The input and GPU-rendering logic of a GPU-accelerated terminal emulator,
written in Verus: each function carries a `requires`/`ensures` contract that
Verus proves, and the properties that span several functions are stated and
proved as `law_*` proof functions.

## Layout

- `src/key_encoding/`: the bytes a key press sends to the shell, in the
  legacy xterm encoding (`legacy.rs`) and the Kitty keyboard protocol
  (`kitty.rs`), chosen by the terminal's mode flags (`mod.rs`).
- `src/keybindings/`: the default bindings (and the macOS Cmd bindings), parsing of user bindings
  (keys, modifiers, actions, `SendText:` escapes), merging them over the
  defaults, and lookup; `laws.rs` holds the parser and merge laws.
- `src/gpu/atlas/`: the glyph atlas: guillotine rectangle packing
  (`rect_packer.rs`), pages with least-recently-used eviction, and the glyph
  cache keyed by raster key.
- `src/gpu/builtin_glyphs/`: the alpha canvas built-in glyphs are drawn on,
  underline pattern bitmaps, and caching a frame's built-in glyphs.
- `src/gpu/compositor/`: the render target pool and which pooled target
  each compositor layer draws into.
- `src/gpu/image_render.rs`, `src/gpu/pane_cache.rs`: the image texture
  cache (memory limit, least-recently-used eviction) and the per-pane
  prepared-frame cache.
- `src/gpu/prepare/`: the prepare pass over a whole frame in cell units
  (`frame.rs`: backgrounds, resolved colors, decorations, built-in, shaped
  or character foregrounds, URL underlines and cursor rectangles, in drawing
  order), and its parts: which cells are drawn and from which glyphs, cursor
  edges, cell colors (cursor, selection, search highlights), decorations,
  and the shaped-glyph frame.
- `src/gpu/pipeline.rs`, `state.rs`, `render_target.rs`, `renderer.rs`,
  `frame_input.rs`: instance layout, adapter and surface choices, readback
  row stripping, vertex buffer growth, atlas lookup, and frame input types.
- `src/text.rs`: character and string helpers over std.
- `app/`: the parts that talk to the GPU and the windowing system (wgpu,
  winit, pollster), the floating-point rasterization, and the scaling of a
  frame plan to pixel instance records (`frame.rs`), over the library.
- `tests/`: tests of the library on concrete values.
