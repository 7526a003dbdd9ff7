# opencode-voice

Voice control for [OpenCode](https://opencode.ai): hold a key, speak, and the
transcript is sent to the OpenCode session; permission and question prompts
can be answered by voice.

The decisions of the program live in a library whose behaviour is stated in
`requires` / `ensures` contracts and proved with Verus; the binary around it
does the I/O.

## Layout

- `src/` — the verified library
  - `approval/` — approval requests, the FIFO queue of pending approvals, and
    the matching of spoken replies (permission commands, question answers)
  - `session/` — the session state machine: recording states, approvals
    announced and settled by the event stream, what a transcript turns into,
    and what the display shows
  - `bridge/` — the OpenCode API: requests and their bodies, the event
    stream's framing and events, reading JSON replies
  - `config.rs`, `cli.rs` — configuration precedence and the command line's
    questions
  - `input/` — key names and codes, keyboard and hotkey decisions
  - `transcribe/` — model paths, transcript clean-up
  - `ui/display.rs` — the lines each state renders
  - `text.rs`, `json.rs` — text and JSON values with their models
- `app/` — the executable: terminal, microphone, whisper, HTTP, threads
- `tests/` — tests of the library

The proofs are checked by running Verus on `src/lib.rs`.
