# raytracer

A path tracer whose integer and boolean core is verified with Verus.

- `src/` — the verified library: the z-buffer depth test (`zbuffer.rs`), the
  step-by-step decisions of tracing one path (`trace.rs`), the render order
  and PPM header (`render.rs`), and the materials whose fields carry no floats
  with their sampling flags (`material.rs`).
- `app/` — the renderer around it: scene loading, floating-point shading and
  sampling, the parallel render loop and output. It declares the renderer's
  geometry, texture, camera, pdf and scene modules, which it needs beside it.
- `tests/` — tests of the library on concrete values.
