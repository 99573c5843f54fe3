# poisson_webcam

A webcam stippling demo: webcam frames set per-pixel sampling radii on the
GPU, a Poisson-disk sampler (`faster_poisson`) places points, and each point
is drawn as a dot.

`src/` is the verified library (Verus):

- `arith`, `dispatch` — the radius pass dispatch: enough workgroups for every
  pixel, rows of at most 32768, no wasted row.
- `draw` — the plot draw call, three vertices per point.
- `mode` — the radius modes and the bytes of the mode uniform.
- `layout` — the bind group layouts and bind groups of both pipelines, with
  the proof that each bind group fits its layout.
- `sliders` — which uniform bytes each page slider rewrites.
- `canvas` — the grid and surface size taken from the canvas.
- `frame` — the frame loop as a state machine, with the proof that at most
  one read-back of the point count is in flight.
- `bytes` — the `bytemuck` casts between words and bytes.

`app/` holds the browser and WebGPU side, which performs what the library
decides. It targets `wasm32` and needs the page's `shader.wgsl` next to it.
