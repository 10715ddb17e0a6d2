# mtcp_rs

Blocking `TcpListener` / `TcpStream` operations with time-outs and
cancellation, emulated over non-blocking `mio` sockets.

- `src/` is the verified library (Verus): time spans and time-outs
  (`time`), the state machine of one blocking socket operation (`wait`),
  the sizing and bookkeeping of whole-message reads and writes
  (`transfer`), poll tokens (`token`), the cancellation flag (`flag`), a
  lazily filled cell (`lazy_cell`), a limited receive buffer (`buffer`) and
  the error type (`error`).
- `app/` holds the sockets, the `mio` poll loop, the thread-local manager and
  the public socket types; it performs the actions that the verified state
  machines ask for and hands back their outcomes.
- `tests/` exercises the library on concrete values.
