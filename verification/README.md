# bllib / blctl

Control of Linux backlight devices. `src/` is the verified library; `app/`
is the `blctl` command around it.

- `brightness`: takes brightness arguments (`50`, `+10`, `-5%`, `max`, ...)
  apart and resolves raw changes, clamped to the device's range.
- `state_store`: the saved brightness of each device and the text of the
  state file used by `set --save` and `restore`.
- `transition`: the decisions of a fade from the current brightness to a
  target: range check, no-op at target, ordered steps with pauses between.
- `commands`: the decisions of `max`, `get`, `set` and `restore`.
- `sysfs`: the decisions of the driver for `/sys/class/backlight`.
- `driver`, `discovery`, `error`: the driver and scanner traits and errors.

`app/` performs what the library asks for (file access, sleeping) and
holds what is floating point: percentages and the easing curves.
