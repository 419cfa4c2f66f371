# todo

A todo domain with an outbox, an inbox and a read model, written in Verus.

- `src/` is the verified library: validated identifiers and titles, the todo
  aggregate and its events, event records and their delivery states, the
  in-memory outbox, inbox, todo store and read model, the state of a unit of
  work, the decisions of the outbox relay, the stored row forms, and request
  contexts. `src/laws.rs` holds properties that span several operations.
- `app/` is the program around it: the asynchronous ports, the services and
  handlers, the lock-protected in-memory adapters, a relational adapter built
  on `sea-orm`, and `main`.
- `tests/` runs the library on concrete values.

## Design notes

- The in-memory todo store and read model keep their entries in vectors
  sorted by identifier (`src/keyed.rs`), and the inbox keeps its identifiers
  in a vector, rather than in `HashMap` and `HashSet`. vstd's contracts for
  the hashed collections hold only for key types that satisfy
  `obeys_key_model`, which vstd establishes for integer and boolean keys but
  not for `String`, and which cannot be taken as an assumption here; with
  `String` keys those contracts would prove nothing. The sorted vector gives
  lookup and insertion with proved contracts over a `Map` (or `Set`) view.
- White space is the fixed Unicode `White_Space` set, written out in
  `src/text.rs` and tested against `char::is_whitespace` on every code point.
