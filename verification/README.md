# Autospot

Automatic hotspot creator for Windows: if the computer loses its Wi-Fi connection and does not
get it back for two minutes, its Mobile Hotspot is switched on, and off again once Wi-Fi is
back.

## Layout

- `src/` is the library: every decision autospot makes, with its contract, proved by Verus.
  - `policy` -- when the hotspot should go on and off
  - `watchdog` -- what one tick reports and asks for
  - `wifi`, `adapters` -- what is read off the machine
  - `uplink`, `hotspot` -- which connection is shared, and what Windows' answers mean
  - `status`, `companion` -- what the USB companion is told
  - `status_dump` -- the status document for a companion that reads it off a disk
  - `config`, `logging`, `paths` -- settings, log levels and log files
  - `service`, `cli`, `diagnostics` -- the Windows service, the commands, the status report
  - `text`, `time`, `lists` -- the ground all of these stand on
- `tests/` runs the library on concrete values.
- `app/` is the program around the library: the command line, the config file, the log, the
  serial port, and the calls into Windows.

The functions called `law_...` state what holds across functions and over time: that no hotspot
is asked for before the threshold has passed, that only a hotspot autospot started itself is
ever stopped, that the uplink is never the hotspot's own adapter, and so on.
