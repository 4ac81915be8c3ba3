# dw3000_ng

A driver library for the Decawave/Qorvo DW3000 UWB transceiver, verified
with Verus.

- `src/` is the verified library. `ll` models every register as bytes
  (two header bytes, then the contents) and specifies each field read and
  write bit by bit; `hl` computes, for each operation of the radio, the
  register values to write from the values read and the configuration
  (initialization calibration, the configuration plan, frame control,
  transmit buffers, GPIO, interrupts, waits). `ranging` holds the integer
  parts of two-way ranging. IEEE 802.15.4 headers come from `smoltcp`, and
  byte slices are written with the `byte` crate.
- `app/` moves those values over SPI with `embedded-hal`: register reads,
  writes and read-modify-writes, fast commands, and the operations that
  sequence them, plus the floating-point distance and clock-offset
  computations.
- `tests/` exercises the library on concrete register values.
