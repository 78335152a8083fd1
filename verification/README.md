# layerhook

Switches a QMK/Vial keyboard's active layer automatically based on which window
is focused: regex rules map a window title to a layer, with a default layer for
everything else.

## Layout

- `src/` is the library. It holds what the program decides from plain values and
  is verified with Verus: rules and patterns (`rules`, `pattern`), the matcher that keeps
  the keyboard on the wanted layer (`matcher`), the raw HID exchange (`hid`),
  the settings window's state (`settings`), launching, autostart, the tray, and
  what each window system's messages mean (`window`).
- `app/` is the program around it: the GUI with its layout in pixels, the tray
  icon, the connections to window systems and keyboards, and the settings file.
  It performs what the library asks for and hands the outcome back. The icons
  are PNG files in `resources/` beside the executable.
- `tests/` runs the library.

The laws that the library keeps are the public proof functions whose names start
with `law_`.

## Building

`Cargo.toml` lists what both systems need. `windows` and `winreg` build on Windows
only, `gtk` and the window systems' crates on Linux only; leave out those of the
other system.

## Firmware requirement

The keyboard's firmware needs two raw HID commands (family `0x02`):

- `0xB0` SET_LAYER: `[0x02, 0xB0, layer]`, answered with `[0x02, 0xB0, layer]`
  once applied.
- `0xB1` GET_LAYER: `[0x02, 0xB1]`, answered with `[0x02, 0xB1, current_layer]`.

`layerhook probe` checks both once; `layerhook cycle-layers` shows layers 1 to 4
for three seconds each.

## What a rule matches against

On Linux the window title. On Windows `[exe.exe]:window title`; a title that
cannot be read shows as `(null)`, an unreadable program as `(unknown)`. Rules are
checked from the top, ignoring case, and the first match wins.

A pattern that the regex engine refuses is marked in the list and matches
nothing. So is one that the engine could not work with safely: a pattern in which
a group refers to itself, one that is too large with its repetitions written out,
or one with a count or group number of nine digits and more.
