# dinput8_saga

A `dinput8.dll` proxy for LEGO Star Wars: The Complete Saga. Loaded in place
of the system library, it forwards the system library's exports, adds a
"Fullscreen" entry to the game's video settings menu, and skips the intro
logos by switching background loading off while the start-up data loads.

- `src/` is the verified library (Verus): the entry point's decision, the
  start-up sequence as a state machine (`startup`), the decisions of the
  game detours (`hooks`), the rules that turn the game's function and symbol
  tables into declarations for the binding generator and map generated stubs
  back to addresses (`bindings`), the reading of those tables from their CSV
  text (`tables`), the code planned for each item of the generated bindings
  (`wrappers`), and the text operations they rest on (`text`).
- `app/` is the Windows side: the exported entry points, the detours, the
  memory accesses; and the file reads and writes, the `bindgen` run and the
  `quote!` output of the binding generation.
- `tests/` runs the library on concrete values.
