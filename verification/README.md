# buzzer_control_webserver

A small web server for a Raspberry Pi: buttons on a web page sound a buzzer,
switch LEDs (a plain one and one on the PWM channel), take pictures with the
camera module and drive an 8x8 LED matrix.

- `src/` is the library, verified with Verus: how each request is read and
  answered, the pin steps of a buzzer sequence, and the driver loops of the
  LEDs and the matrix as functions from state and event to next state and
  action, with the laws they keep (steady blink and update schedules, the
  animation index never leaving its table, shutdown when no sender is left).
- `app/` is the program: command line, HTTP routes, threads, GPIO/PWM/SPI
  and `libcamera-still`. It performs what the library decides, and computes
  the PWM duty cycles, which are floating point.
- `tests/` runs the library on concrete values.
