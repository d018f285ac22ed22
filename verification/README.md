# rpi_blinkers

Bare-metal LED blinker programs for the Raspberry Pi 2 (BCM2836), with their
decisions verified in Verus.

* `src/` — the verified library. Each program (`blinker01` … `blinker06`,
  `display`) is a state machine implementing `command::Program`: it names the
  next register access or side effect and is handed back what a read returned.
  `gpio`, `timer`, `watchdog` and `interrupt` hold the register addresses and
  the verified value computations (function select fields, wrapping timer
  arithmetic, watchdog configuration, interrupt handler responses), with the
  laws that relate them.
* `app/` — the bare-metal side: volatile register access, the external
  `dummy`/`enable_irq` routines, the loop that drives a program, interrupt
  entry points and ARM EABI runtime hooks.
* `tests/` — tests of the library on concrete values.
