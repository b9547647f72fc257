# vita_input

Controller and touch-panel input for the PlayStation Vita, as a Verus-verified
library.

- `src/controller.rs` — buttons and their register bits, button-mask queries,
  stick normalisation, controller snapshots built from a raw report.
- `src/touch.rs` — touch ports, touch points, panel calibration, touch
  snapshots built from a raw sample, and their iterator.
- `src/ratio.rs` — exact fractions in which every normalised value is given,
  and clamping to `[0, 1]`.
- `src/text.rs` — decimal text of integers, for the written form of a touch
  point.
- `app/lib.rs` — the system calls through `vitasdk-sys`, conversion of the
  SDK's structs into the library's raw types, and `f32` / `glam` views of the
  exact values.
- `tests/` — tests of the library on concrete values.
