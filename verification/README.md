# zenoh_link_tls

The logic of a TLS transport link, written in Rust and verified with Verus.

- `src/` is the verified library. It does no I/O. Where a file has to be read, a socket
  opened or a handshake performed, a function says so in its result and takes the outcome
  as an argument when it is called again.
  - `config`, `endpoint`, `error`, `text`, `views`: values and their wording.
  - `credentials`, `pem`, `identity`, `anchors`: keys, certificates and trust anchors out of
    a configuration.
  - `server`, `client`: TLS configurations.
  - `link`, `link_setup`, `listener_setup`, `accept`, `manager`: links, listeners and the
    steps that lead to them.
  - `laws`: what holds of the configurations as a whole.
  - `outside`: what is taken from other crates, with the contracts that are believed.
- `app/` binds the library to async-std sockets and the file system.
- `tests/` run the library, with handshakes in memory.
