# lx16a_rover

Driver logic for LX-16A serial bus servos and the six-wheel rover drive train
that uses them.

- `src/packet.rs`: the packet format as sequences of bytes, and the laws that
  relate framing, checksum and response checking.
- `src/byte_order.rs`: little-endian 16-bit fields, encoded by `byteorder`.
- `src/port.rs`: the serial port behind the bus (`Mutex`, `Read`, `Write`).
- `src/lx_16a.rs`: the bus and the commands of one servo.
- `src/drive.rs`: the integer steps of the drive train.
- `src/rover.rs`: what the rover's control loop asks of the drive train.

A bus whose lock was poisoned by a panic in another thread keeps working:
the library takes the lock over instead of panicking.

Commands 29 (`SERVO_OR_MOTOR_MODE_WRITE`) and 31
(`SERVO_LOAD_OR_UNLOAD_WRITE`) follow the LX-16A bus servo communication
protocol of the servo's maker.

`app/control_link.rs` reads operator commands from standard input.
- `app/`: the program: serial port, wheel geometry in floating point, the
  command loop.
