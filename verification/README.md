# guayusa

The verified core of a D-Bus service that controls two `swayidle` user units,
written in Verus, with the service around it.

## Modes

- `normal`: lock/display-off and suspend idle policies run
- `no-suspend`: lock/display-off runs, idle suspend does not
- `no-idle`: neither runs
- `custom`, `unavailable`: reported, never set

## Layout

- `src/mode.rs`: the modes, their names and their cycle
- `src/systemd.rs`: unit states, and the operations that read and change the mode
- `src/systemd_laws.rs`: what holds of whole operations
- `src/dbus.rs`, `src/dbus_laws.rs`: the methods, properties and signals of the service
- `src/wayland.rs`, `src/wayland_setup.rs`, `src/event_loop.rs`, `src/wayland_laws.rs`:
  idle inhibition by way of a Wayland compositor
- `src/cli.rs`: the command line and what commands print
- `src/text.rs`: text helpers
- `tests/`: tests of the library
- `app/`: the program, which performs what the library decides

Nothing in `src/` waits or talks to anybody. An operation, a set-up or the event
loop is a value that names its next outside action and advances with the outcome
of that action. `app/` performs the actions.

`GUAYUSA_LOCK_UNIT` and `GUAYUSA_SUSPEND_UNIT` override the names of the managed
units, which are `guayusa-swayidle-lock.service` and
`guayusa-swayidle-suspend.service` by default. No other unit is ever addressed.
