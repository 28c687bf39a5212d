# leopardwm_overlay

The logic of the LeopardWM snap overlay, verified with Verus: a transparent
window that shows where a window will snap to and where columns end.

- `src/` is the library. It works on plain values and returns commands.
  - `rect`: rectangles and the box around a group of them
  - `color`: colors and their premultiplied pixels
  - `canvas`: the bitmap, from the box around the rectangles to its pixels
  - `state`: what the overlay shows, and the commands to its window
  - `overlay`: the overlay window, from its set-up until it is given up
  - `worker`: the thread that owns the window
  - `hint`: how snap hints look
  - `laws`: what holds over several calls
- `app/` holds the process-wide state, the thread and the calls into Windows.
- `tests/` runs the library on concrete values.
