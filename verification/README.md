# iced_glutin

The windowing shell of an interactive application that is drawn with OpenGL.

The library under `src/` decides what happens, and Verus proves what it decides:

- `startup` leads an application from its executor to its event loop, with a
  second kind of OpenGL context (`context`) to fall back to, and tells why it
  could not start (`error`);
- `runner` stands in the callback of the event loop: it passes events on, and
  leaves behind how the loop goes on (`control`);
- `instance` is the running application, a state machine from an event or a
  result to the actions that answer it (`event`, `cursor`);
- `laws` states what holds of whole runs, such as that every message reaches
  the application once and in order.

`app/` performs the actions with the real windows, contexts, compositors and
user interfaces. `tests/` runs the library on concrete values.

Three functions in `control` call the channels of the `futures` crate; what
they claim of them is believed, not proved, and stands in their contracts.
