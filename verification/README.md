# arachno-pilot

Control and calibration software for a six-legged robot driven by Feetech
STS serial bus servos, with an optional IMU bridge, camera stream and browser
dashboard.

## Layout

- `src/` — the library, verified with Verus. It holds the decisions of the
  runtime and the tools: motion modes and dashboard commands, the motion
  controller (arming, fault latching, body-attitude and bus-voltage strike
  counting, command generation, arming after the torque-limit restore, mode
  switches, the arm bus decisions of each control tick), bus link handling and
  round-robin servo polling, the step-by-step EEPROM profile application
  (with its refusal of an empty profile), range-scan and joint-group sensing
  procedures, the trace log location, manual and arm control state with their
  request refusals, leg
  groups, named poses and stand-up stage poses in servo ticks, the semantic
  calibration store, the low-torque range scan, pose checks and suggestions,
  EEPROM profile writes, workspace torque windows and limits, device probe
  results, camera pipeline arguments, and the two dashboard pages.
- `app/` — the programs around the library: the hardware-owning runtime with
  its HTTP API (`brain`), the read-only telemetry monitor (`dashboard`),
  device probing (`probe`), the IMU firmware query (`fw-info`), servo
  calibration (`calibrate`) and the simulation export (`sim`). It performs the
  serial, file, network and process I/O, and holds the floating-point parts:
  semantic joint angles, leg kinematics, gait and transition timing, the IMU
  attitude estimate and the URDF geometry.
- `tests/` — tests of the library.
