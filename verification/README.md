# thunder

A client for the Thunder (Xunlei) download engine, split in two.

- `src/` is the verified library (Verus). It holds what is decided around
  each engine call: texts converted to C strings (`text`), batch tasks and
  their conversion (`batch_task`), how status codes read (`sdk`), the engine
  handle, start-up, login and task creation (`thunder`), how the buffers the
  engine fills are decoded and the exchange that reads a task's description
  (`task`), the exchange that sends HTTP headers (`headers`), and the claims
  of the login token (`token`).
- `app/` performs the engine calls through its C interface, signs the login
  token with `jsonwebtoken`, and hands each reply back to the library.
- `tests/` exercises the library on concrete values.
