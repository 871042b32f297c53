# incline_ui

The interface logic of a mine planning application: what the editor holds, which commands
its widgets ask for, what a frame draws and in which order, and what each tool, dialog and
page says. The logic is written in Verus. Every function states what it returns or changes,
and the contracts are proved.

- `src/` is the verified library. Floating-point numbers are held as their bits: comparing
  them is proved, computing with them is left to the caller, who hands the results in.
  Texts are words of the source language with named arguments, before they are translated.
- `tests/` runs the library on concrete values.
- `app/` is the window around it: egui, winit and wgpu, floating-point geometry, and the
  printing of texts.

Properties that relate several functions are public proof functions in the module they
are about. What is trusted about code from elsewhere stands beside its one use:
`words.rs` (white space), `palette.rs` (colours of egui) and `editor.rs` (the stem of a
path).
