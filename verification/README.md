# visualizer

A transparent, always-on-top window that draws the desktop's audio output
as a waveform or a spectrum.

- `src/` is the verified library (Verus): `color` (COLORREF packing, bar
  colours), `settings` (persisted settings and keyboard shortcuts),
  `overlay` (drag-to-move / drag-to-resize gestures, outline drawing plan,
  frame counter), `pcm` (wave format detection and PCM decoding),
  `capture` (capture format choice, device names, cutting the sample
  stream into display blocks).
- `app/` is the program around it: WASAPI loopback capture, the raylib
  window, GDI drawing on the desktop, the FFT and loudness estimates
  (floating point), and the JSON settings file.
- `tests/` exercises the library on concrete values.
