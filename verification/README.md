# rustgb

A Game Boy (DMG) emulator whose core is verified with Verus.

- `src/` — the verified library: registers (`reg`), the memory bus with its
  cartridge bank controllers (`mem`), the abstract machine state and the
  meaning of every instruction (`state`), the interpreter (`cpu`), the LCD
  mode clock, timer and interrupt dispatch (`timing`), video decoding
  (`video`), keyboard input (`input`), main-loop pacing (`run`), the wall
  clock (`wallclock`), and laws relating these (`laws`).
- `app/` — the program: command line, file reading, the SDL window, drawing
  and event polling.
- `tests/` — tests of the library on concrete values.
