# constellation

The core of a node-based, real-time video processing studio, written in Verus
and verified: the node graph and its cycle check, error classification and
recovery policies, telemetry, hardware compatibility rules, the GPU memory
books and queue selection, capture and camera settings, virtual webcams, the
box blur, playback positions and the development server's registry.

Layout:

- `src/` — the verified library. Verus checks every function in it; the
  public ones carry contracts that state their results, while some small
  helpers inside modules have none beyond freedom from overflow and panics.
  The few calls into other crates (UUIDs, clocks, processor count, UUID text,
  JSON copies) sit behind small trusted wrappers whose doc comments say what
  is assumed.
- `tests/` — tests of the library on concrete values.
- `app/` — the program around it: the HTTP and WebSocket servers, Vulkan
  through ash, X11 and camera I/O, the V4L2 device, and the parts that compute
  in floating point (colour effects, audio levels, 3D scene data, straight-alpha conversion).
