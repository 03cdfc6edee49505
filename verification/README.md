# servocom

Register conversions and protocol decisions for Feetech (FT-SCS) serial
servos, verified with Verus.

- `src/servo/conversion.rs`: the `Conversion` trait (raw register value ⇄
  physical value), the range error of the encoders, the flag register.
- `src/servo/feetech/conversion.rs`: the STS/SM encodings (present position,
  4-segment offset, BIT15 speed, BIT10 load, goal-speed bit layout) and their
  round-trip laws.
- `src/feetech_protocol.rs`: the protocol handler's settings, the
  communication error kinds and their messages, the factory-reset option
  check, and the decision step of the input drain before each send, with its
  law.
- `src/text.rs`: decimal text of integers for the error messages.
- `app/`: the serial-port side (draining, sending, post delays) and the
  floating-point goal-speed scaling.
