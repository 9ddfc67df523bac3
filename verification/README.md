# jade_engine

The core of the Jade engine editor, verified with Verus.

- `src/clock.rs`: the time of day `HH:MM:SS.mmm` that stamps log entries, and
  the reading of the machine's clock behind it.
- `src/logger.rs`: the system log (entries, display switches, rendering of a line).
- `src/platform.rs`: the platform abstraction layer's error and kind types.
- `src/mock_platform.rs`: the mock backend's identity, core count and frame-count check.
- `src/editor.rs`: the editor's console state (log, last shown result, auto-refresh switch).
- `src/laws.rs`: properties that span several operations.
- `app/`: the egui/eframe window, the platform trait with its floating-point
  calls, and the mock backend's clock- and float-driven answers.
