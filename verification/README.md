# fujinet

A verified hardware-abstraction library for a FujiNet-style network peripheral,
written in Verus. Every function under `src/` carries a contract that Verus proves.

Layout:

- `src/device/` — device traits and errors, per-unit state, device-spec (`N1:http://...`)
  parsing, the protocol registry and factory, the HTTP protocol handler and the
  network manager.
- `src/adapters/` — the request-level operations (open, close, validate, HTTP GET and
  POST) and the error codes they map to for C callers, with test stand-ins for the
  manager, device and client.
- `src/ffi/`, `src/host/`, `src/platform/` — result codes of the device calls, the unit
  table of the direct C calls, the pass-through host translator and the platform's
  registry and manager set-up.
- `src/base/` — the core device interfaces and their result codes.
- `src/peripheral/` — network devices over a protocol handler, and an HTTP handler that
  keeps the last response for byte-wise reads.
- `app/` — the C entry points, the reqwest-based x86 HTTP client and the copies of the
  error types that need `thiserror` or a C layout.
- `tests/` — unit and scenario tests of the library.

What is proved of the traits that platforms implement (`HttpClient`, `ProtocolHandler`,
`ProtocolHandlerFactory`, `NetworkDevice`, `Device`) holds for the implementations under
`src/`, which Verus checks against the traits' contracts. The reqwest-based client in
`app/` is ordinary Rust: it defines none of the trait's spec functions (its request log
and header map are left unspecified), and nothing checks it against the contracts. So
what the library states about the requests sent and the headers set holds for verified
clients only.
