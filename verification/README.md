# meili

A library for the Highly-Typed Information Registry: its wire format, the server's
handling of new connections, configuration, and the client's device registration,
verified with Verus.

- `src/` — the verified library:
  - `http` — recognising a plain HTTP GET, reading its `Host:` value, the 301 answer;
  - `server` — the plan for a new TCP connection, the UDP socket and multicast joins,
    which websocket messages are passed on;
  - `tls` — TLS certificates and keys read out of PEM text;
  - `wire` — the message header and the decoding of messages;
  - `config` — addresses, the server configuration, its defaults and the TLS material
    derived from it, the client's command line;
  - `client` — the registration a FIDO security key is asked for;
  - `error`, `util`.
- `app/` — the server and client programs, the Python module and the GUIs: the file,
  network, device and window-system work, and the serde and clap forms of the types.
- `tests/` — tests of the library.
