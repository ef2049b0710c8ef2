# nebula_delay

The parameter model, preset data and state bookkeeping of the Nebula Delay
mono delay plugin, as a library whose behaviour is stated in contracts and
proved with Verus.

* `src/dsp.rs` – engine-side enums (input mode, note value, routing mode).
* `src/parameters/` – host-facing choice enums with their indices and engine
  mapping, on/off display texts, parameter snapshots, the A/B bank and the
  undo/redo history, with the laws that relate their operations.
* `src/preset/` – preset records and defaults, the factory bank, preset file
  names, creation stamps and the ordering of user presets.
* `src/text.rs` – text helpers (trimming, comparison, decimal numerals).
* `app/` – host glue: nih_plug parameter objects, JSON preset files on disk,
  and the floating-point formatting and clamping that the library leaves out.

Values that the host sees as `f32` are carried by the library as their bit
patterns (`F32Bits`); the library stores and copies them but never computes
with them.
