# Rockey Hockey

Software for an air-hockey robot: a camera-side puck detector with a live
settings web UI, a table strategy simulator, and a headless controller that
drives the robot's GRBL steppers.

The decision logic is a library verified with Verus; the programs around it
(OpenCV, the HTTP server, the serial port, the simulator window, threads and
the floating-point geometry) are ordinary Rust.

## Layout

- `src/` — the verified library
  - `hsv`, `targets`, `input`: detector settings, colour windows, target labels, input selection
  - `playback`, `preview`, `http`: web UI playback control, preview frame store,
    routing, replies and MJPEG framing
  - `render`, `frame`, `detection`: overlay colours and label layout, crop
    fitting, coordinates sent to controllers, detection names
  - `grbl`: GRBL reply parsing and the homing sequence
  - `controller`, `metrics`: controller modes, move throttling, strategy
    choices and runtime counters
  - `text`: white-space trimming and decimal formatting
- `app/` — the three programs: `rockey_hockey camera|strategy|controller`
- `tests/` — tests of the library
