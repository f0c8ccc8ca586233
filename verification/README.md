# dfu_core

A host-side implementation of the USB Device Firmware Upgrade (DFU 1.1)
protocol with the DfuSe extensions of the STM32 bootloader, verified with
Verus.

- `src/` is the library, every function of it proved against its contract:
  - `state_machine`: the DFU device states and status codes;
  - `protocol`: class requests, the status reply decoder, the DfuSe
    commands (set address, mass erase);
  - `firmware`: a firmware image and its division into transfer blocks;
  - `transfer`: the download procedure as a state machine that is told what
    the device answered and says what to do next (entering DFU mode,
    erasing, setting the address, sending blocks 2, 3, ... then an empty
    block, waiting for the manifestation), with the laws it keeps;
  - `usb`: recognising DFU interfaces, listing devices, reading vendor and
    product ids and the flash address from the command line;
  - `text` and `error`: message texts and the error type.
- `app/` is the `dfu-cli` program: command line, libusb transfers through
  `rusb`, pauses, the progress bar, and the error type with its `Display`.
- `tests/` runs the library on concrete values.
