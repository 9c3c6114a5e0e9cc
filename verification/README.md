# constraint_audio

Audio building blocks on lattice consonance theory.

- `src/` is the verified library (Verus): the waveform and filter kinds,
  case-insensitive parsing of waveform names, case-insensitive lookup of
  presets by name and the messages for unknown names, and the per-sample
  stage layout (attack, decay, sustain, release) of an ADSR envelope, with
  laws on its order and ramps.
- `app/` is the program and the floating-point signal path around it:
  oscillators, biquad and consonance filters, envelope levels, presets,
  note rendering, serde copies of the enums and the Python bindings.
- `tests/` exercises the library.
