# omfg_layer

The decision logic of the OMFG post-process frame-generation Vulkan layer,
written in Verus with its contracts proved.

## Layout

- `src/config.rs` — the `OMFG_LAYER_MODE` and `OMFG_DEBUG_VIEW` settings:
  alias parsing, stable names, shader codes, and the round-trip laws.
- `src/planner.rs` — swapchain mutation (usage bits and image count), the
  present sequence of each mode, and generated-present accounting, with the
  laws that tie them together.
- `src/passes.rs` — dispatch sizes and binding tables of the 19-pass
  synthesis pipeline, with the binding-layout and no-aliasing laws.
- `src/memory.rs` — choice of a device memory type.
- `src/layer.rs` — loader interface negotiation, the entry points the layer
  intercepts, the action taken for a present, and C string copies.
- `src/heuristics.rs` — coordinate clamping for the motion search.
- `src/text.rs` — string comparison and the numbers and names of log lines.
- `src/vulkan.rs` — the Vulkan constants the logic reads, taken from `ash`.
- `tests/` — unit tests of the library.
- `app/` — the Vulkan layer itself (ABI exports, dispatch tables, resource
  management and command recording), the environment reader, and the
  `f32` frame-rate controller and motion heuristics; it calls the library
  for every decision above.

The layer embeds its blend shaders as SPIR-V built from GLSL by the
project's shader build step (`shaders/blend.vert.spv`,
`shaders/blend.frag.spv`).
