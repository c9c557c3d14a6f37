# fancontrol

The control logic of a desktop fan controller, verified with Verus.

- `src/` is the verified library:
  - `mode.rs`: control modes and the fan record (speed readings are an
    opaque payload),
  - `selection.rs`: which fan is controlled, and how a selection is kept valid,
  - `presets.rs`: the preset speeds offered between the lowest and highest speed,
  - `active_mode.rs`: recognising the mode the controlled fans are in,
  - `signals.rs`: counting answers to control signals, rounds of manual control,
  - `model.rs`: the controller's state machine (refresh, error banner,
    control actions, snapshot) and its laws,
  - `text.rs`: names and messages shown to the user,
  - `startup.rs`: what the registry tool's answers mean for launch at login.
- `app/` is the application around it: hardware providers (simulation and
  LibreHardwareMonitor), the clock, pauses between rounds, registry access,
  floating-point speed arithmetic, and the user-interface commands.
- `tests/` runs the library on concrete values.
