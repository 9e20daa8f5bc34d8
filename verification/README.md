# segment_clock

A desk clock with a four digit, seven segment display, three buttons and a USB port. It shows the
time, the date, an alarm time, or a text that a host sends.

`src/` is the logic, verified with Verus:

- `function`, `command`, `text`, `time`: the values that the parts pass to each other
- `glyph`, `shift`, `display`: what the segments show, and how the display's driver is loaded
- `buttons`, `usb`: what becomes of presses and of control requests
- `queue`: commands on their way to the clock
- `controller`: the rounds of the clock
- `laws`: what holds of the clock as a whole

Each part that waits for the outside world is a state machine: it takes an event and answers with
an action. `app/` is the firmware that performs the actions on an STM32U545.

`Cargo.toml` selects the host's executor and mutexes, so that the library and its tests run on a
workstation. For the board, `embassy-executor` takes `platform-cortex-m` in place of
`platform-std`, and `embassy-sync` goes without `std`. The tick rate of `embassy-time` has to stay
at 1 MHz: `time::TICKS_PER_SECOND` says the same.
