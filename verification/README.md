# virtio_blk

A virtio block-device driver whose decisions are verified with Verus.

The device itself (its registers, its virtqueues, the clock) is reached by the
caller; the library decides what to do and checks what comes back:

- `src/request.rs` — request headers and their little-endian image.
- `src/buffers.rs` — the buffer lists of a request (a `SmallVec`).
- `src/driver.rs` — the driver state, read and write requests, their
  completions, interrupts, and choosing the device configuration.
- `src/init.rs` — device bring-up as a state machine in the order of the
  virtio specification, with the laws of that order.
- `src/adapter.rs` — transfers of FAT file-system blocks onto sectors.
- `src/selftest.rs` — patterns, plans and verdicts of the device self tests.
- `src/virtio_defs.rs` — constants and flag tests of the `virtio-spec` crate.

`app/` holds the unverified glue: a `Transport` trait for register and queue
access, the driver loop that performs the actions the library asks for, the
`embedded-sdmmc` block-device adapter and the timed self tests.
