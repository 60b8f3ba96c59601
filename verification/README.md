# nav_simulator

A navigation simulator: three satellites on circular orbits and a ground
vehicle that follows a route of waypoints publish telemetry; an algorithm
node gathers it frame by frame and trilaterates the vehicle.

- `src/` is the verified library (Verus): orbit classes and their altitudes,
  controller gains, the waypoint guidance state machine of the vehicle
  (`vehicle::Guidance`), the frame assembly of the algorithm node
  (`frames::FrameAssembler`), and the choice of trilateration inputs
  (`util::trilateration_triple`). Payloads and waypoints are type parameters,
  so no floating-point value enters the library.
- `app/` is the program around it: the floating-point physics, telemetry
  messages with their JSON form, ZeroMQ publishing and subscribing, and the
  command line. The former separate binaries are subcommands:
  `sat-node`, `vehicle-node`, `algo-node` and `monolithic`.
- `tests/` exercise the library on concrete values.

Altitudes are returned in whole kilometres and gains in tenths; the program
converts them to floating point.
