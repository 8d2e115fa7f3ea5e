# ot_decoders

Decoders for industrial protocols, written and proved in Verus. A decoder takes in the payloads of
a session and gives events: transactions, observed assets and links, readings of process values,
extracted artifacts, and anomalies.

- `src/` is the library. Every decoder has a mathematical model (`step`, `chunk_events` or
  `datagram_events`) that says which events a payload gives and which state it leaves, and its code
  is proved to do just that. Public proof functions state what holds across payloads: that requests
  and answers of one session become one transaction, that a device is shown once, that no more than
  a fixed number of requests wait, that the chunks of a stream say the same however it is cut.
- `src/text.rs` holds all that is believed without proof: three functions of `std` and of the `hex`
  crate.
- `tests/` runs the library on concrete payloads.
- `app/` fits the decoders to a packet engine: the trait that the engine calls, the registry, and
  the conversion of times and addresses. Ten decoders work on the fields that a dissector makes of
  a payload; the embedder brings those dissectors.
