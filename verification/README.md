# bottomless_pit

The bookkeeping core of a small 2D game engine, verified with Verus.

`src/` is the library. Every function in it carries a `requires`/`ensures`
contract that Verus proves, and the public proof functions (`lemma_*`) state the
properties that hold across calls:

- `input`: key and mouse state per frame, with pressed/released edges;
- `engine_handle`: the engine's state machine — input, resizing, resource loads,
  closing and frame pacing — and the window builder;
- `draw_queue`, `material`, `buffer`: where queued shapes go in the vertex and
  index lists, when textures and shaders switch, buffer sizes and padding;
- `resource`, `resource_cache`: resource ids, load bookkeeping, resource maps and
  the cache that drops entries left unused;
- `shader`, `colour`, `settings`, `vectors`, `ui_elements` and the rest.

`app/` holds what the library leaves to the host: the winit event loop, file
reading, the settings file, and the floating point parts (colours, vertices, the
camera). `tests/` runs the library on concrete values.
