# glossa

Glossa is a push-to-talk speech-to-text daemon for Linux desktops: a global
shortcut starts a recording, a second press stops it, the audio is trimmed,
transcribed (and optionally enhanced by an LLM), and the text is pasted into
the focused window.

## Layout

- `src/` is the verified library, checked by Verus:
  - `machine.rs`: the daemon's state machine (`reduce`), stated as the
    decision table `decide`, with its laws;
  - `actor.rs`, `pipeline.rs`, `daemon.rs`: the decisions that the actor,
    the processing and paste tasks and the top-level loop take between
    their outside steps, each a function from plain values to plain values;
  - `config/`: the configuration, its defaults, its validation rules and the
    secret and working-directory encodings, with their round-trip laws;
  - `capture.rs`, `trim.rs`: sample conversion, stream fallbacks, the
    keepalive timeout bookkeeping and silence trimming of recordings;
  - `text.rs`: whitespace, trimming and line-ending normalisation over
    character sequences;
  - `error.rs`, `service.rs`, `cli.rs`: error messages, the `systemctl`
    calls and the command line.
- `tests/` runs the library on concrete values.
- `app/` is the binary: argument parsing, TOML loading, audio devices, the
  async actor loop and the desktop integrations, built on the library's
  decisions.
