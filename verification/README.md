# ESP32-S3 capacitive touch sensor driver, verified

A Verus library for the touch sensor of the ESP32-S3: the low-level register
programming (`src/lowlevel.rs`), the common HAL layer (`src/common.rs`) and the
touch / touch-pad driver (`src/touch.rs`).

Every operation appends the hardware accesses it performs to a `TouchBus`, in
program order: field stores (which keep a register's other fields), reads, waits
for a field value and pin routing. Its contract states that log exactly. Values
that the hardware reports before an operation (the measurement-done bit, the
current scan map and channel outputs, the FSM mode bit, the active pads) are
arguments, read by the caller. `src/regs.rs` gives the model of the register file
(field widths, write-one-to-clear interrupt registers) and `src/laws.rs` proves
what the registers hold after each operation and how operations relate.

`app/` performs a log through a `RegisterAccess` that the platform implements over
its peripheral access layer and GPIO driver, installs the async interrupt handler
through the platform's RTC driver, and holds the async parts: the waker table, the
touch interrupt handler and the pad futures.
