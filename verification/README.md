# menu_ui

The menus of a Godot game (title screen, main menu and its animated variant,
pause menu, credits and loading screens), written as a verified library plus
a thin Godot extension.

- `src/` is the library, verified with Verus: each screen is a small state
  machine over plain values. The engine side hands it what it read (input
  flags, autoload settings, the loader's status, the rounded progress) and
  performs the command it gets back.
- `app/` is the Godot extension (`godot` crate): the classes registered with
  the engine, node lookups, signals, resource loading, and the
  floating-point animation (blinking prompt, eased progress bars, scroll
  positions).
- `tests/` runs the library on concrete values.
