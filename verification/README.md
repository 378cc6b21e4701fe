# stm32f4ve

Firmware demos for the STM32F4VE board (blinky buttons, serial greeting,
SSD1306 display, SD card as USB mass storage), split in two:

- `src/` — the verified library (Verus): what each demo decides.
  - `buttons`: the EXTI3/EXTI4 handlers' decision (clear and toggle, or ignore)
    and the LED levels they leave.
  - `serial_tx`: the byte-by-byte sender that retries refused bytes.
  - `block_storage`: the block device's read/write completion, error mapping
    and largest logical block address.
  - `geometry`, `display_demo`: points, outlines, translation and the
    demo's layout.
- `app/` — the board program: peripheral set-up, interrupt handlers, the
  drawing and USB stacks, calling the library for every decision.
- `tests/` — tests of the library on concrete values.
