# auto_clicker

A kernel-level autoclicker for Linux (X11 and Wayland): it reads mouse and
keyboard events from `/dev/input` and clicks through a virtual uinput mouse.

- `src/` is the verified library:
  - `interval.rs`: the click interval (whole seconds and nanoseconds), its
    unit constructors, checked sum, the one-millisecond floor, and the
    humantime rendering.
  - `keys.rs`: key codes, key names and the events of one left click, as
    evdev defines them.
  - `context.rs`: the state shared by the window, the device readers and the
    clicking loop, and what a key event does to it (hold and toggle modes,
    hotkey capture).
  - `model.rs`: the window's settings: splitting the interval into hours,
    minutes, seconds and milliseconds, and what each window message does.
  - `laws.rs`: properties across these operations.
  - `system.rs`: the running clicker as a whole (device events, messages
    waiting for the window, writes of the configuration) and what holds after
    any sequence of events.
- `app/` is the program: the GTK window (relm4), the device threads, the
  clicking thread and the configuration file.
