# gpui_mobile_core

The decisions of a mobile GPUI backend, verified with Verus: when a frame is
drawn, which touches reach GPUI, what a soft keyboard's update means, which
surface the renderer uses, and how a file prompt is answered.

- `src/` is the library. Its functions take what a host observed and return the
  next state and what the host has to do; each one's contract says exactly
  which. Public proof functions state what holds of several calls together.
- `app/` is the host side: threads, loopers, JNI, UIKit and GPUI's own types.
- `tests/` runs the library on concrete values.

Time is counted in nanoseconds from an origin that the host picks, and handles
the library only passes through (loopers, native windows, positions) are type
parameters.
