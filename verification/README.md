# co2

Logic of a CO2 and temperature monitor for the nRF52840 development kit,
verified with Verus.

- `src/` is the library. `rgb_led` holds the colour code of the active-low
  RGB LED, `pulse` the square waves that the buzzer and the LED's error
  blinking are made of, `buzz` the buzzer's tone schedule, `button` the
  button's edge detector, `monitor` the decisions of the temperature loop,
  `color_cycle` those of the LED demo and `co2_mod` those of the sensor demo.
- `app/` is the firmware around it: pins, timers, the temperature sensor and
  printing, and what is kept in floating point (the CO2 alarm levels and the
  temperature display).
- `tests/` runs the library on concrete values.
