# libfabric

A verified core for Rust bindings to [libfabric](https://ofiwg.github.io/libfabric/).

The library holds everything the bindings decide without touching the fabric:

- `consts`, `enums`, `flags`, `datatype`: the libfabric constants, the enumerations with
  their encodings (and the laws that decoding and encoding undo each other), and the flag
  sets with their setters and queries.
- `comm::{message, tagged, rma, atomic, collective}`: for every data-transfer operation, the
  exact `fi_*` call it makes (`MsgCall`, `TaggedCall`, `RmaCall`, `AtomicCall`, `CollCall`),
  computed from the endpoint, buffers, descriptors, addresses, contexts and options.
- `cq`, `domain`, `conn_ep`, `comm::asynchronous`: completion-queue and domain state (with
  the retrieval of a queue's wait object and the encoding of domain attributes), the
  connection life cycle of endpoints, how each libfabric return value is read, and what an
  asynchronous transfer awaits (its completion on the endpoint's transmit queue, or on its
  receive queue for tagged receives; nothing for an inject).

Every public function carries a contract that Verus proves. The crate under `app/` performs
the planned calls through `libfabric-sys` and hands the outcomes back to the library.
