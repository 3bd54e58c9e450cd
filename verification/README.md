# hyperwarp

The verified core of an application-capture and streaming system: a host
library injected into an application (window and framebuffer bookkeeping,
input injection, symbol routing, a control server) and a streaming daemon
(session control, WebRTC peers, the encoding stage), which talk over the
Stellar protocol.

Layout:

- `src/` is the library, verified with Verus. `protocol` holds the plain
  protocol data; `keymap`, `input` and `laws_input` the browser-to-SDL input
  path; `host`, `control`, `symbols`, `dynapi` and `settings` the host side;
  `streamer`, `session`, `peers`, `client` and `encoder` the streaming side;
  `text` small string helpers.
- `app/` is ordinary Rust around it: serde/bincode wire forms of the protocol,
  JSON decoding, the environment, and floating-point conversions.
- `tests/` runs the library on concrete inputs.
