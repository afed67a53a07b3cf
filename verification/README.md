# gpui_windows

Frame pacing and external-texture rules of a Windows GPU renderer, as a
Verus-verified library.

- `src/permit.rs`: the frame permit of a waitable swap chain (`PermitState`),
  the opt-in flag rule and the per-frame wait bound, with the laws that the
  permit obeys.
- `src/gate.rs`: the present gate's decisions around a message-aware wait:
  classifying wait results, stale readiness after a resize, and its counters.
- `src/latency.rs`: which values of the queue-limit flag request a limit.
- `src/texture.rs`: shared texture owners, texture descriptions and the checks
  a texture passes before it is copied.
- `src/cache.rs`: the cache of opened textures, per owner and per device.
- `app/`: the Direct3D, DXGI and Win32 calls that use these decisions
  (Windows only), and the floating-point clipping of a copy.
- `tests/`: the scenarios, run against the compiled library.
