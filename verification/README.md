# volumize

Firmware core of Volumize, a rotary encoder with a push button and a small
monochrome display that sets per-application volume on a desktop host over
USB serial.

- `src/` is the verified library (Verus): classification of button gestures
  and encoder steps, the quadrature decoder, the screens and their navigation
  stack, the box-model layout arithmetic of the widgets, the registry of the
  host's devices and applications, and the length-prefixed framing of the
  messages on the link. Each public function states its result in its
  contract; the laws that tie functions together are public proof functions.
- `tests/` runs the library on concrete values.
- `app/` is the firmware around it: hardware set-up, interrupt handlers, the
  USB tasks, CBOR encoding, drawing with embedded-graphics, and the main loop
  that feeds input events to the library and carries out what it returns.
