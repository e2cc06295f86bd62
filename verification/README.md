# deepspace_quic

Configuration logic of an HTTP/0.9-over-QUIC client and server tuned for
deep-space links (long delays, intermittent connectivity), with its
contracts and laws proved.

The maximum round-trip time (`--maxrtt`) is given in milliseconds (3600000
for one hour): it sets both the initial RTT and the idle timeout to that
span.

- `src/` is the verified library:
  - `host` strips the brackets around an IPv6 host of a URL;
  - `transport` models the transport parameters as plain values and holds
    the operations that max them out, tune them for a maximum RTT and select
    the congestion controller, with the laws that relate them;
  - `rate_limit_cc` is the congestion controller that leaves pacing to a rate limit;
  - `trust` picks the certificate file to trust and builds the root store
    and the QUIC client configuration from DER certificates, through rustls
    and quinn-proto;
  - `client` holds the client's decisions: its transport settings from its
    options, the request line, ALPN, port and repetitions;
  - `varint` and `text` are small helpers (QUIC integers, string equality).
- `app/` is the program: option parsing, files, network endpoints, TLS
  verifier and the quinn-proto trait impls for the library's controller.
- `tests/` runs the library on concrete values.
