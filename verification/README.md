# hal-mik32

Hardware abstraction for the MIK32 microcontroller family, with its logic
verified by Verus.

## Layout

- `src/` — the verified library. One module per peripheral holds the
  computations behind its driver: register field encodings, divider and
  timing selection, configuration checks, and the decision steps of the
  polling loops (I2C slave transfers, DMA completion, USART status
  decoding). Every public function carries a contract; the properties that
  relate several functions are stated and proved as `lemma_*` proof
  functions.
- `app/` — the register-level drivers built on `mik32-pac`: they read and
  write the peripheral registers, hand plain values to the library, and
  implement the `embedded-hal` traits.
- `tests/` — tests of the library on concrete values.

The library does not touch hardware itself, so every decision it makes can
be checked on a host machine.
