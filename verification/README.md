# egui_probe

Widgets that display and edit values in egui, and the `EguiProbe` derive
that builds them for a type.

- `src/` is the verified library: `ProbeDefault` and its impls, the style
  types and button texts, the optional-value toggle (`option`), and the
  decisions of the derive: `model` is what the derive reads from a type,
  `plan` is what it decides to generate, and `probe_derive` goes from one to
  the other with a contract that fixes the plan, or the error, for every input.
- `app/` holds what needs egui and the proc-macro crates: the `EguiProbe`
  trait and its impls, the optional-value widget, and the derive's reading
  of the type with `syn`/`proc_easy` and writing of the plan with `quote`.
- `tests/` runs the library on concrete inputs.

Notes on what this crate holds:

- `ProbeDefault` is implemented for the integer types, `bool` and `Option`.
  The `f32`/`f64` impls are not here: floats cannot be held by the verified
  library, and the trait and `f32`/`f64` are both foreign to `app/`.
- `Style::field_indent_size_bits` holds the `f32` indent as its bit pattern.
- `customize` offers `probe_option`, `probe_with` and `probe_as`. The range,
  step, multiline, toggle-switch, frozen and colour probes that the derive
  refers to are built from widget types (`EguiProbeRange`, `ToggleSwitch`,
  `EguiProbeFrozen`, the colour and text probes) of modules that are not
  part of these sources, so those constructors are not provided.
- The derive reports its errors in the order it checks: type arguments,
  then (for a struct) each field's arguments and the skip rule in field
  order, or (for an enum) each variant's arguments, each field's arguments,
  then transparent variants, then the others.
