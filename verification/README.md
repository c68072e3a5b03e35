# hwwctl

A control plane for hardware-wallet emulators: a long-lived daemon owns
every emulator instance and its UHID bridge, and short-lived `hwwctl`
invocations drive it over a Unix socket with one length-prefixed JSON
message per request and per response.

- `src/` is the verified library (Verus): the protocol types, frame
  encoding and decoding, the hexadecimal id form, the daemon's instance
  registry and per-request dispatch, the BitBox02 start sequence as a
  series of states, the merged log timeline, the client's request
  building, socket-path resolution and exit codes, the human-readable
  output, and the uevent matching that finds a device's hidraw node.
- `app/` is the program around it: command-line parsing, serde, sockets,
  processes, signals, the emulator and bridge crates, logging.
- `tests/` exercises the library on concrete values.
