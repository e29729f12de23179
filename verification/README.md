# async_spin_sleep

A high-resolution timer driver for asynchronous code: one dedicated thread spins on the clock
and wakes many sleeping tasks at their deadlines, so that they share the precision of a spin
loop without each burning a core.

- `src/` is the verified library. `time` holds durations and instants as nanosecond counts;
  `driver` decides what the driver thread does (wait, spin, fire, collect garbage) over a 4-ary
  heap of timers kept in `queue`; `sleep` is the state machine of a sleep future; `util` keeps
  the schedule of an interval timer and aligns it to a clock; `report` says how a sleep ended;
  `builder` configures a driver.
- `tests/` exercises the library on concrete values.
- `app/` runs it: the driver thread with its channel, the handles, the futures and the clock
  reads.
