# slap-your-openclaw

Detects slaps and shakes on Apple Silicon MacBooks through the built-in
accelerometer and hands the events to an OpenClaw agent, to stdout, or to
MCP clients.

The crate is a Verus library (`src/`) plus the program around it (`app/`).

- `src/detector`: severity levels and event kinds, the STA/LTA trigger
  hysteresis, classification of a detection from its sources and amplitude
  band, the sample ring buffer and the bounded event history.
- `src/shared.rs`: detector phases (warmup, arming, ready), the progress
  display, and the decision whether an event is published.
- `src/sensor/iokit.rs`: reader state for the sensor's shared ring buffer,
  the window of new entries and the little-endian decoding of its bytes.
- `src/openclaw.rs`, `src/mqtt.rs`, `src/standalone.rs`: the messages and
  the command line handed to OpenClaw, the MQTT payload, the local output.
- `src/mcp/server.rs`: history queries, wait limits and configuration
  updates of the MCP tools.
- `app/`: the command line (clap), the floating-point signal processing,
  sensor FFI, the async detection loop, and the MCP/MQTT/OpenClaw I/O.
