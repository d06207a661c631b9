# synth_rs

The decision logic of a modelling synthesizer and small recording studio, written in
Verus: the functions under `src/` are proved to do what their contracts say.

Ten contracts are taken on trust, since they speak of code outside this crate: the eight
wrappers in `src/json.rs` around `serde_json`, and in `src/text.rs` `lower_case` (around
the lower-case mapping of the standard library) and the contract of `String::push`. Each
says in its comment what is believed of the function behind it. The names for what a JSON
value holds, and for a text in lower case, are fixed by these contracts alone.

- `src/` is the library. It holds the instrument graphs and their key maps, the voice
  pool and the kits, the built-in instruments, the control panels, presets and projects,
  MIDI decoding, the arrangement and graph editors, and the layout of a WAV file.
  Single-precision numbers are carried as bit patterns (`single::Single`): the library
  stores, compares and clamps them, and rounds decimals to them exactly
  (`decimal`), but does no arithmetic on them.
- `app/` is the program around it: the window, the audio and MIDI devices, the files, and
  everything that computes with floating-point numbers, from the modes of a string to the
  mixing of a song.
- `tests/` runs the library on concrete values.

Public proof functions state what holds of the library as a whole, for example that
removing a component never leaves an edge dangling, that a delay line gives back what was
written, or that edits keep a graph valid.
