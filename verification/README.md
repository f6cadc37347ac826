# arcamclient

A library, verified with Verus, for controlling an Arcam AVR amplifier or AV receiver over an
Ethernet connection using the Arcam IR/RS232 packet protocol, with a gtk-rs control window and a
mock AVR850 around it.

## Layout

- `src/codes.rs` – zones, commands, answer codes and the values the amplifier reports, with the
  byte that stands for each.
- `src/rc5.rs` – the RC5 remote control commands and the pairs of bytes that stand for them.
- `src/arcam_protocol.rs` – request and response packets: creating, serialising, parsing and
  describing them, and the texts the user interface shows for brightness, power, mute state and
  source.
- `src/functionality.rs` – which requests to send for what the user asks for, and what to show for
  each response that arrives.
- `src/mock_avr850.rs` – the state of a mock AVR850 and how it answers each request, and each
  chunk of requests read from a connection.
- `src/control_window.rs` – the connection state as the user interface shows it, and where to
  connect to.
- `src/text.rs` – UTF-8 text from the amplifier and decimal digits.
- `app/` – the program: the control window (`arcamclient`) and the mock amplifier
  (`arcamclient mock-avr850 [port]`), with the sockets and channels between them.

The laws that Verus proves include: parsing the bytes of a request or response gives it back
(followed by any bytes); whatever the parser finds is the bytes of what it gives; decoding the
byte of a code gives the code back; every RC5 command decodes from its pair of bytes except the
two whose pair the documentation gives to an earlier command; and, for the mock amplifier,
queries and refused requests change nothing, volumes stay below 100, and a value set is the value
then reported.

Licence: GPLv3.
