# kuma_agent

The verified core of a Windows push agent for Uptime Kuma: it watches local
network devices (ICMP ping or TCP port checks) and reports their state to
Uptime Kuma push monitors.

- `src/` holds the logic, proved with Verus: settings and their defaults and
  migration (`config`), the push URL and reply handling (`push`), the
  decisions of the monitoring cycle and the check results (`monitor`), the
  autostart decisions (`autostart`), the messages to the settings page
  (`settings`), the tray and settings-window decisions (`ui`), and the character-level text operations they rest on (`text`).
- `app/` is the program around it: file and registry I/O, the network probes
  and HTTP requests, the tray icon and the settings window.
- `tests/` runs the library on concrete values.
