# cadit

The verified core of a small CAD editor, written in Verus.

- `src/` is the library. Each module holds one concern of the editor
  (camera presets, file classification, the UI message queue, object
  selection and pointer clicks, material de-duplication, geometry index
  assembly, viewport tracking, animation scheduling, the window loop's
  decisions) with contracts over spec models and, where several operations
  meet, public `law_*` proof functions.
- `tests/` runs the library on concrete values.
- `app/` is the program around the library: argument handling, the egui
  user interface, and the floating-point work (colours, rotations) that
  the library does not hold.
