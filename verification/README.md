# sysmon

A lightweight system monitor with network traffic tracking against daily and
monthly limits, alert notifications and optional automatic disconnection.

- `src/` is the verified library: traffic alerts (`alerts`), the monitor's
  running state of day totals, counters, rates, unrecorded traffic, histories
  and the day and month that the alerts belong to
  (`monitor_state`), interface and traffic helpers (`monitor`), history days
  (`storage`), byte formatting, usage levels, interface texts and autostart
  decisions (`ui`), the configuration sections (`config`) and the tray state
  (`tray`).
- `app/` is the desktop program: it reads the operating system, the clock,
  the configuration file and the SQLite database, draws the window with egui,
  and acts on the library's decisions.
- `tests/` exercise the library, including comparisons with floating-point
  reference computations.
