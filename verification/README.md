# voce

Voce filters a microphone down to one enrolled speaker's voice: it records
two enrollment samples, averages their speaker embeddings into a voice
profile, and then passes live audio only while a sliding vote over recent
windows finds the speaker's voice.

## Layout

- `src/` — the verified library (Verus):
  - `app_state.rs`, `ui.rs` — the application state, tray labels, menu and
    panel command dispatch, start-up decisions;
  - `audio/` — chunking of the microphone stream, the embedding window
    accumulator, gating of samples and output playout, device roles;
  - `filter/gate.rs` — the sliding-vote speaker gate;
  - `enrollment/` — the timed enrollment recorder and profile helpers;
  - `inference.rs` — the inference task as a state machine from
    (state, command or chunk) to (next state, effects);
  - `config.rs`, `driver.rs`, `eval.rs`, `model/`, `panel/`, `text.rs` —
    data locations, ring-buffer positions, evaluation decisions, model
    download policy, panel messages and text matching.
- `tests/` — tests of the library.
- `app/` — the program around it: audio devices, ONNX models, files,
  network, the menubar user interface, and the floating-point arithmetic
  on samples and embeddings.
