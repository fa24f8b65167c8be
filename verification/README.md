# nrf52dk-sys

Support for the Nordic nRF52 Development Kit with the S132 SoftDevice.

- `src/` is the verified library: the C scalar types (`ctypes`), the
  interrupt numbers of the nRF52832, the reserved slots of the Cortex-M
  vector table (`exceptions`), `check`, which turns an SDK error code into a
  `Result`, and `ble_stack`, the decisions of the Bluetooth stack bring-up as
  a state machine whose laws (call order, RAM start flow, stop at the first
  failure, the final wait) are proved.
- `app/` is the board side: the exception and reset handlers, the SDK's C
  declarations, and the firmware that performs the calls the state machine
  asks for.
- `tests/` runs the library on concrete values.
