# webgpu_scene

The decision logic of a small WebGPU scene viewer, verified with Verus.

- `src/scene.rs`: the scene model (objects, mesh topology, materials, rendering switches).
- `src/batch.rs`: grouping meshes by material into batches with shifted indices,
  with the laws that the batches partition the objects and keep indices in range.
- `src/control.rs`: the keyboard and mouse state machine behind the camera.
- `src/render.rs`: frame pass planning, the bloom pyramid and pass chain,
  dispatch and texture copy layouts, and index buffer planning.
- `src/gui.rs`: the debug dialog's initial state and its reaction to user input.
- `src/text.rs`: decimal and hexadecimal text, and `#RRGGBB` colour parsing.
- `app/`: the browser side (DOM, event listeners, animation loop, float camera math).
