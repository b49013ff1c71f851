# robot_vacuum_firmware

Firmware logic for a simulated robot vacuum, verified with Verus.

- `src/domain`: states, commands, sensor readings, errors, and the state
  machine with its allowed transitions.
- `src/hal`: the driver traits (wheels, suction, brushes, sensors, battery,
  dock, clock), each with a contract over what the driver reports.
- `src/controllers`: motion, cleaning, docking, battery and safety helpers.
- `src/application`: the controller (`RobotController`) and the automatic
  navigation pattern. `RobotModel`, `tick_model` and `handle_command_model`
  state exactly what a tick and a command do; `laws.rs` proves properties
  such as the fail-safe on critical sensors and that refused commands
  change nothing.
- `src/simulation`: simulated drivers and the simulated controller.
- `src/api`: the request and response values, error mapping, the simulation
  endpoints' logic, and the checks and placement of simulation logs.
- `app/`: the HTTP server (axum), JSON handling and file writing.
