# door_controller

Control logic for a motorised door on a microcontroller, verified with Verus.

- `src/signals.rs`: the one-slot signals between the tasks, on `embassy_sync`.
- `src/clock.rs`: the tick clock, on `embassy_time`.
- `src/door.rs`: the door state machine; `src/door_laws.rs`: what holds of it over several steps.
- `src/pulley.rs`: the two-channel motor driver with its ramps; `src/pulley_laws.rs`: what holds
  of it over many steps.
- `src/system.rs`: door and pulley together.
- `src/switch.rs`: debouncing of buttons and limit switches.
- `src/overcurrent.rs`: the watch on the motor current.
- `src/network.rs`: reconnecting the wireless link, and the seed of the network stack.
- `app/`: the firmware around the library.

Known behaviour: while the pulley slows down or rests before a reversal, it does not hear a
request to stop, and while it slows down to rest it does not hear the other direction.
`PulleyView::ignores` says exactly when.
