# midi_loopback

A Lua module (`require "midi_loopback"`) that publishes a CoreMIDI virtual
destination and echoes everything it receives through a virtual source with the
same name, optionally forwarding it to up to two further destinations.

- `src/` is the verified library: decimal and status texts (`decimal`, `status`,
  `errors`), the searches among the system's endpoints (`endpoints`), the loopback's
  state and the plan of CoreMIDI operations that publish, rename and rewire it
  (`loopback`, with its properties in `laws`), and what the Lua bindings accept and
  answer (`lua`).
- `app/` performs the CoreMIDI calls that the plan asks for and speaks the Lua C API.
- `tests/` runs the library on concrete values.
