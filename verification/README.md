# imu_fsr

Firmware logic of an STM32G431 board with an inertial measurement unit and
force sensing resistors that answers on an RS-485 bus as a Dynamixel servo.

- `src/` is the verified library (Verus): the LED pin requests and their
  effect on the GPIO output register (`gpio`, `devices`), the receive
  interrupt as a state machine (`uart_rx`), reading bytes out of the receive
  queue (`rx_buffer`), the IMU command words and acceleration samples
  (`imu`), the control table settings (`control_table`), clock and timer
  settings (`clocks`), and when the DMA interrupt refreshes the sensors
  (`dma`).
- `app/` is the firmware around it: register accesses through the `stm32g4`
  peripheral access crate, the interrupt handlers and `main`, and the
  Dynamixel protocol handler.
- `tests/` runs the library on concrete values.
