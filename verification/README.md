# zeditor

A keyboard-driven video clip editor and a "channel surfer" video player.

- `src/` is the verified library: the editor's state machine (vim-like
  normal/insert modes, clip marks, looping, speed stepping, clip export
  planning), the channel surfer's state machine (channels, badge, effects,
  dropped files, alphabetical channel order), clock formatting,
  probe-report reading and the integer pixel effects (pixelate, RGB split,
  invert, contrast, the integer stages of the compression look).
- `app/` is the window around it: egui panels, egui-video playback,
  ffprobe/ffmpeg calls, file scanning, and the floating-point colour mixing
  of the sepia and compression effects.  Started under a name containing
  `channel_surfer` it runs the surfer, otherwise the editor.
- `tests/` exercise the library on concrete values.
