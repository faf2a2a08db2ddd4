# kchat-mls

The decisions around post-quantum conversations over MLS, verified with Verus.

- `src/` is the library. Every function states what it does in its contract, and Verus
  proves it. What holds across functions is stated in public proof functions: that no
  accepted change weakens a conversation, that what is written on the wire reads back,
  that a T half never overtakes its PQ half, that no window of time holds more fetches
  than the limit, and so on.
- `tests/` runs the library, with the outside crates linked.
- `app/` is a command line client, and the glue for JavaScript.

The library calls libcrux, hpke-rs, rand and tls_codec. Each call stands in a small
function of its own that says what is taken on trust.
