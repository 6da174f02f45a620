# window_tuner

A macOS window layout manager: global shortcuts (Ctrl+Option + key) and a
tray menu move the focused window to halves, quarters, thirds, two-thirds,
full size or the centre of its screen; asking again for a left or right
layout when the window is already there moves it to the neighbouring screen.

- `src/` is the verified library (Verus):
  - `geometry` — rectangles in sixths and in thirty-sixths of a point,
    coordinate limits;
  - `layout` — the layouts, their target rectangles and screen directions;
  - `screens` — which screen holds a window, conversion of screen frames into
    accessibility coordinates and their left-to-right order;
  - `window_manager` — window information, the calls that move a window, and
    where a layout request sends it;
  - `focus` — the search for the focused window as a state machine;
  - `bindings` — shortcuts, tray menu entries and item ids, close behaviour.
- `app/` is the Tauri application around it: the macOS accessibility and
  Cocoa calls, the tray, the shortcut registration.
- `tests/` runs the library on concrete screens and windows.

Screens and windows as read are measured in sixths of a point (`i64`),
which holds every pixel-aligned position and size exactly on screens of one,
two or three pixels per point; the application rounds other floating-point
values to the nearest sixth on the way in. Layout targets, and the calls that
move a window, are measured in thirty-sixths of a point, in which every half,
third and sixth of a screen, and every centring, is exact.
