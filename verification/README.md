# nebula_cluster

The control logic of the Nebula Cluster dirt-box audio plugin, written in Verus with
its behaviour stated in contracts and proved.

## Layout

- `src/` is the verified library:
  - `model.rs`: the forty controls, their indices and value kinds, choice labels.
  - `parse.rs`, `text.rs`: what a text typed into a value field says (switch word,
    choice label, or the number and the form in which it reads).
  - `midi.rs`: MIDI learn, controller bindings, the mapping shown to the user and the one
    kept for rolling back, and the control changes that moved controllers ask for.
  - `history.rs`: undo and redo with a shared cap of 64 snapshots.
  - `naming.rs`: unique preset names.
  - `editor.rs`, `pointer.rs`: the editor's state (pages, presets, text fields, menus,
    A/B slots, chaos generator) and how clicks and keys change it.
  - `dsp.rs`: the compressor mode and oversampling factor that the choices select.
- `tests/` exercises the library from outside.
- `app/` is the plugin around the library: the host glue, the audio engine, the spectrum
  analyzer and the egui editor. The engine works on floating point and the host, editor
  and analyzer on outside crates, so this part is ordinary Rust.
