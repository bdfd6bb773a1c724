# qubit-codec

Codec contracts, owned value adapters and caller-buffered streaming
transcode primitives, with their behaviour stated as Verus contracts and
proved.

## Layout

- `src/` — the verified library.
  - `codec.rs` — the `Codec` trait: one value to and from its encoded units,
    with declared bounds for every lifecycle hook; an implementation also
    states, as spec functions, what each hook answers, the units or values
    it writes and the state it leaves, and the adapters' contracts are
    stated over them. `Transcoder` is modelled the same way.
  - `num.rs` — a non-zero `usize`.
  - `transcode/` — progress and status types, error types and their checks,
    the `Transcoder` trait, and:
    - `internal/` — cursor state machines of one transcode call and the
      `reset -> transcode -> finish` lifecycle guard;
    - `io/` — the decisions of the buffered I/O adapters: which progress to
      commit, how far to fill, what window to decode, when to stop.
  - `value/` — owned value encoders and decoders over a `Codec`, value-codec
    IDs and the sorted, duplicate-free value-codec registry.
  - `util/` — checked index arithmetic and byte-string order.
- `tests/` — tests of the library.
- `app/` — what stays outside the verifier: error display text, the
  type-erased value-codec descriptor and process-wide registry, and the
  `qubit-io` buffered adapters that perform the reads and writes the library
  decides.
