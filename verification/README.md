# Calibrator

A background program for Windows laptops. When the brightness of the built-in HDR panel changes, it
sets the HDR content brightness to the value that keeps the panel on its calibration curve, a power
curve with exponent 2.4 between 42% and 98% panel brightness.

- `src/` is the library: what is decided, with contracts that Verus proves. What needs the system is
  written as a state machine that says which call to make next and takes the reply.
- `app/` makes the calls, in the order that the library gives, and converts between the system's
  values and the library's. Everything that is there for Windows alone is compiled on Windows alone.
- `tests/` runs the library.

`calibrator.exe` adjusts the brightness. `calibrator.exe --probe` records, for a sequence of slider
positions, the white level that the system reports; `--probe=0,10,30` gives the positions. A second
launch asks the instance that is running to set the white level again. Under the name `xtask` the
program builds the installer package.
