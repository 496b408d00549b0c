# nd313

Wiring logic of the nd313 bus script for the LOTUS simulator.

- `src/` is the verified library: the positions of the driver's controls
  (`controls`), the indices of the electric units and bulbs (`indices`), and
  one wiring system per domain (`interface::power`, `pneumatics`, `traction`,
  `outside_lights`, `inside_lights`, `cockpit`, `doors`, `messages`). Each
  system takes what it reads of the backbone as plain values and returns
  the switch states, lamp states and commands to be written back; its
  contract states that answer exactly, and proof functions beside it state
  the rules that hold across inputs. Floating-point values (voltages,
  pressures, speeds, brake and throttle positions) are computed and written
  by `app/`, which hands the library the comparisons it needs as booleans.
- `app/` builds the vehicle with `lotus-extra`'s backbone framework, reads
  the backbone cells, calls the library and writes the answers back.
