# rs_pamixer

A PulseAudio command line mixer (volume, mute, listings) with stream
routing and output mirroring, whose decisions are verified with Verus.

- `src/` is the verified library:
  - `text`: decimal formatting, reading numbers and comma-separated index
    lists, trimming; the law that a written index list reads back unchanged.
  - `volume`: percentages and volumes, per-channel volumes and their average.
  - `device`: sinks, sources and sink inputs built from what the server
    reports, and their listing lines.
  - `pulse`: the decisions around server requests: lookups, default devices,
    connection steps, request outcomes, volume and mute requests, the module
    plan of a mirror.
  - `cli`: conflicting options, what a command line asks for, what to do with
    the selected device, and the messages printed.
- `app/` is the program: argument parsing with clap, the connection to the
  server with libpulse-binding, gamma correction (floating point), printing.
- `tests/` runs the library on concrete values.
