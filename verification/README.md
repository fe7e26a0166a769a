# napi_wasmer

The host side of N-API for WebAssembly guests that run in wasmer, verified with Verus.

A guest module says through its imports which parts of N-API it needs. The library reads them,
opens a session for the module, makes the memory and the function table that it imports, and binds
the resources of the running instance. It hands out the handles by which guests name native
environments, and it keeps the books around calls from the host into a guest.

## Layout

- `src/version.rs`, `src/import.rs`: which versions a module needs, and what it imports.
- `src/ctx.rs`, `src/session.rs`, `src/hooks.rs`: the session limit, one session from its imports to
  its instance, and the queues of sessions in between.
- `src/handle.rs`, `src/env.rs`, `src/sharing.rs`: handles, the host's state for one instance, and
  what holds of the states that share one context.
- `src/callback.rs`, `src/dispatch.rs`: buffers copied for a callback and written back after it, and
  what a callback calls and answers.
- `src/engine.rs`: the boundary to wasmer. What is believed of it without proof stands here.
- `src/error.rs`, `src/text.rs`: errors and their words.
- `app/`: the host around the library, with shared state, the native bridge and the calls that run
  guest code.
- `tests/`: the library from outside, with wasmer itself.

State is passed by `&mut`. Where threads share it, the host holds it behind a mutex.
