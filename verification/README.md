# hybrid

The decision logic of a small competition robot (an RP2040 board driving two
wheel steppers, a linear extension, a gripper servo and an ultrasonic
sensor), verified with Verus, and the controller program that commands it.

- `src/` — the verified library:
  - `packet` — the requests and answers exchanged with the controller;
  - `fixed_vec` — the `heapless` vectors that carry ramps and action lists;
  - `profiles` — trapezoid and S-curve acceleration profiles, the layout of
    the power-law profile, and the delay of every pulse of a move;
  - `actuators` — steppers, the drivetrain, the extension, servo and gripper;
  - `sensors` — the ultrasonic range finder;
  - `plan` — the commands each request unfolds into;
  - `json_text` — comment stripping of the JSON of custom requests.
- `app/` — the controller (command line, JSON, postcard, TCP) and the
  firmware side that needs floating point or hardware (`robot.rs`).
- `tests/` — tests of the library.
