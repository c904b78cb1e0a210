# olive_solve

The verified core of a plate-solving and IMU-fusion stack for a telescope
finder: Verus proves the decision logic, the calendar arithmetic, the sensor
timing rules and the extraction-option mapping against their contracts.

- `src/fusion.rs`: the state that coordinates plate solving with IMU
  tracking (starting and stopping the IMU, booking solves, choosing the
  reported position and its source), with the laws relating these steps.
- `src/tetra3.rs`: lazy loading of the solver and extractors, the
  translation of standard extraction options into fast-extractor options,
  when a fast extractor is reused or rebuilt, and the dispatch between the
  fast and the standard extraction paths.
- `src/calendar.rs`: the integer terms of the Meeus Julian day, with a proof
  that the day count is continuous over the Gregorian calendar.
- `src/sensors.rs`: BMI160 sensor-time intervals, the back-dated sample
  timeline of polled gyros, the MPU FIFO read loop and frame decoding, and
  address selection.
- `src/storage.rs`: the persistent-storage interface and file naming.
- `app/`: the BMI160 and MPU-series I2C drivers, the hardware probing and
  frame conversions around the fusion logic, disk storage and the
  floating-point celestial transforms, all built on the library. There is no
  BNO085 driver: the bno080 crate at hand has no gyroscope reports.
