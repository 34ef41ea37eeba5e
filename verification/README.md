# controller

Verified control logic for a low-power cat water fountain with time-of-flight
proximity sensors, written in Verus.

- `src/` is the library. Each controller keeps its state in a struct whose
  abstract view the contracts speak of; the work that needs hardware, timers or
  channels is split off: the library decides, the caller performs.
  - `motor_controller`, `state_machine`: motor ramping, safety limits,
    calibration and the `motor` command line.
  - `led_controller`: colours, fades, blink sequences, the LED run loop's
    decisions and the `led` command line.
  - `sensor_controller`: proximity readings, the sensor run loop's decisions,
    calibration arithmetic and records, presence tracking and the `sensor`
    command line.
  - `battery_controller`, `thermal_controller`: supervision of battery and
    temperature, with their boot traps and alerts.
  - `system_controller`, `system_feature`: power-state decisions, the
    dispatch of system commands, the queue of commands for the system
    controller, and how the answers of several features combine.
  - `filesystem_controller`: the shell's scratch buffer and the `fs` command
    line: partition resolution, what a format erases and says, and the
    directory listing.
  - `gesture_detector`, `telemetry_controller`: dual long presses and telemetry
    filtering and accounting.
  - `board`, `model`, `types`, `parse`: shared data types, the flash layout,
    the boot cause and number parsing.
- `tests/` exercises the library on concrete values.
- `app/` is a host shell that reads command lines from standard input and runs
  them against stand-in drivers and an in-memory flash; it also runs the LED
  loop on the host.
