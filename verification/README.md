# rsbongo

A desktop "bongo cat" overlay: a small always-on-top window whose sprite
raises its paws for a moment whenever a key or mouse button is pressed or
released anywhere on the system.

- `src/` is the verified library (Verus):
  - `sprite.rs`: the software renderer (`fill_rect`, `draw`) with an exact
    per-pixel specification, the range check `frame_in_range`, and laws about
    the frames.
  - `input.rs`: classification of evdev key events and of the Windows
    low-level hook messages into presses and releases.
  - `animation.rs`: the overlay's animation state machine (`App`) and its laws.
  - `event.rs`, `config.rs`: the event type and the settings' defaults.
- `app/` is the program around it: the winit window, softbuffer surface,
  evdev reader threads, Windows hooks, X11 click-through and the TOML
  settings file.
- `tests/` runs the library on concrete inputs.
