# life_game

Particle-life simulation rendered with wgpu inside an egui/eframe web page.

- `src/` — the verified library (Verus): the frame-rate window and frame
  clock, the vertex layout of a particle, and the integer rules of the
  compute pass (workgroup count, particle flags, uniform matrix layout).
- `app/` — the browser program: eframe/egui UI, wgpu pipelines and buffers,
  random initial state and the floating-point parts, on top of the library.
- `tests/` — tests of the library.
