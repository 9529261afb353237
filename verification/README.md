# quelana

A meeting assistant that, on request, sends a typed or transcribed question to a
Gemini-compatible endpoint and shows a suggested reply in an always-on-top overlay.

- `src/` is the verified library (Verus): settings, endpoint configuration, the
  request body and the reading of the answer (`json`), the transcription command
  (`whisper`), audio sample conversion, the Ctrl+Shift+R hotkey state machine, and the
  overlay's state machine with its laws (`overlay`).
- `app/` is the program around it: command-line parsing, the HTTP exchange, audio capture, the
  tray icon, the global key listener, window enumeration and the egui overlay.
- `tests/` exercises the library on concrete values.
