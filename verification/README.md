# uds-io

Pins for software-in-the-loop simulation whose levels travel as Unix datagrams.

- `src/` is the verified library: the wire codecs (`codec.rs`), the state of an
  input pin and how queued datagrams and injected values settle it
  (`input.rs`), when a wait on a digital input is over (`waiter.rs`), the state
  of an output pin and the datagram it frames (`output.rs`), and how a socket
  path is claimed without displacing a live peer (`reclaim.rs`).
- `app/` holds the sockets, the injection channel, the async plumbing and the
  `embedded-hal` / `embedded-hal-async` trait impls, built on the library.
- `tests/` runs the library on concrete values.
