# gpui_windows

The decisions of a window backend for Windows, written in Verus: every function under `src/` is
proved to do what its contract says. The calls into the system are in `app/`, which asks the
library what to do and hands it plain values: device pixels, dots per inch, flags, code units
and bytes.

| module | what it decides |
| --- | --- |
| `geometry` | where the frame of a window lies around its client area |
| `click_state` | which clicks make a double click |
| `window_plan` | what a window is created with and how it is opened |
| `window_creation` | in which order a window is brought up, and what ends it early |
| `window_state` | what a window remembers: filling the screen, opening late, coming to the front |
| `message` | where the messages of a window go |
| `drag_data` | what a drag out of a window offers, byte by byte |
| `drag_session` | what becomes of a drag at its source and at its target |
| `output_color` | how pixels are handed to the compositor of a monitor |
| `icc` | the primaries of an ICC display profile |
| `backdrop` | what shows through the background of a window |
| `prompt` | the ids of a dialog's buttons and the answer to a click |
| `text` | UTF-16, as the system takes and gives it |

Each module ends with its laws: proof functions named `law_..` that say what holds across calls.

A function that needs its numbers to stay within a machine integer has one beside it that tells
whether they do.

Logical pixels and color matrices are floating-point numbers. They are computed in `app/`.

What is taken on trust is small and marked `external_body`: the clock, `String::from_utf16_lossy`,
`dunce::simplified`, and `SmallVec` behind `drag_session::ExternalPaths`.
