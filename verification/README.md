# vaudio

A real-time, microphone-driven terminal audio visualizer.

- `src/` is the verified library: view modes and their labels, colour themes and
  palettes, the mode state machine (manual/auto modes, key handling, beat gating with a
  cooldown, auto-mode switching with hysteresis), the bounded sample and spectrogram
  histories, the column bucketing the renderers use, and the status-bar texts.
- `app/` is the program around it: command-line parsing, microphone capture, the FFT
  and other floating-point analysis, the animations, and terminal drawing.
