# musicbox

Generative ambient audio. The library under `src/` holds the engine's
control logic, verified with Verus:

- `prng` — xorshift64 noise source (never stuck at zero, injective steps);
- `track` — the fade-in / steady / fade-out state machine every track uses;
- `delay` — a generic circular delay line;
- `pluck`, `granular` — the random decisions behind plucked strings and grains;
- `reverb`, `swing` — the plate reverb's modulation clock and the swing ceiling;
- `duration` — the grammar of durations such as `1h30m`;
- `frames` — stereo interleaving for the browser host;
- `entropy` — the draw from `rand`'s seeded generator that starts the pluck noise.

`app/` holds everything that computes on `f32` samples (oscillators,
filters, reverb and delay arithmetic, mixing, limiting), the `MusicBox`
engine and its `wasm-bindgen` bridge, all built on the library.
