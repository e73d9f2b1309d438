# wap

Calls from Rust compiled to WebAssembly into a JavaScript host.

- `src/` is the verified library: the values exchanged with the host
  (`value`), NUL-terminated names and texts (`cstring`), and the wire
  protocol of type codes and 64-bit slots for arguments and results (`wire`).
- `app/` holds the host imports, the instance handle, raw memory and the
  reference-counted handles that release their host entry on drop, and builds
  the public API on top of the library.
- `tests/` runs the library on concrete values.
