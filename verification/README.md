# fxsound_ui

The interface of the FxSound audio enhancer: the full and the compact main window, the Settings
window, the preset import and export windows, message boxes and toasts.

The crate is split in two.

- `src/` is the library, written in Verus and verified. It holds what the windows know and decide:
  the state they draw, the actions a frame's clicks and key presses ask for, the text they show
  (language names, labels, the changelog's plain text, the preset messages) and their geometry in
  whole points (a button centred in an odd amount of room starts on a half point). Every public function states its result in its contract, and the properties that
  span functions (navigation that wraps both ways, round trips between a window's outer size and
  its content, rows that never overlap, menus that keep their items' indices) are proved as
  lemmas beside them.
- `app/` is the egui front end. It paints the library's state, turns what the pointer and the
  keyboard did into the library's event records, and hands back the actions the library computed.
  What is fractional by nature — decibels, hertz, levels, colour blending, positions that follow a
  value along a track — and everything that touches egui, the file system or the environment lives
  there.

`tests/` runs the library on concrete values.
