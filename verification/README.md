# backend

The application layer of a decision-coaching service (PrOACT decision
cycles, sessions, memberships, AI conversations, decision profiles), written
as a Verus library.

- `src/` — the library. Each command, query or event handler is split along
  its awaits: the library decides, from what a repository, reader, AI
  provider or payment provider answered, whether the handler fails (and with
  which error), finishes (and with which result), or which call comes next
  with which arguments. Every decision function carries a contract that
  Verus proves; laws that span several functions are public proof
  functions (`law_*`).
- `tests/` — tests of the library on concrete values.
- `app/` — the handlers wired to their ports: the async calls, the event
  envelopes, the wire (serde) forms of the library's types.
