# agentmux relay core

The decision logic of the agentmux relay, written in Verus: request
validation and routing, target grouping, delivery admission and handover
windows, the evidence order that settles a delivery's outcome, worker and
registry bookkeeping, the principal store and its credentials, identity
administration as a step machine, permission and choice queues, bundle
lifecycle planning and listing.

Layout:

- `src/` — the verified library. Each module states its contracts over
  views (`Seq`, `Map`, plain values); the laws that span several functions
  are public proof functions beside the code they speak of.
- `tests/` — executable tests of the library on concrete values.
- `app/` — the host around the library: file persistence of the principal
  store and startup history, the credential transaction's file steps, the
  UI stream loop, tokio channels for drain and observability. It drives the
  library's step functions and performs the actions they return.

Outside crates are reached from `src/` only through a handful of trusted
wrappers (`sha2`, `subtle`, `time`, `rand`, `base64`, `uuid`), each with a
doc comment saying what its contract assumes.
