# vosk-dictation (verified core)

The decision logic of an offline voice-dictation daemon for Linux, verified
with Verus. The daemon captures microphone audio, runs it through the Vosk
speech recognizer, and types the transcription into the focused text field
through a uinput virtual keyboard; a D-Bus interface enables, pauses and stops
it.

- `src/` is the verified library: the US QWERTY keystroke table and the key
  actions that type a text (`injector`), the daemon's state machine
  (`daemon`), the D-Bus interface's decisions (`dbus`), focus-state
  construction and window-change tracking (`focus`), recognizer outcomes to
  events (`stt`), audio chunking (`audio`), the overlay label (`hud`) and the
  configuration with its default model path (`config`).
- `app/` is the program around it: threads, channels, the microphone (rodio),
  Vosk, X11 and AT-SPI2 focus monitors, the D-Bus server (zbus) and the evdev
  virtual keyboard.
- `tests/` runs the library on concrete inputs.
