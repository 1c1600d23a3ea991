# prompt-hash events

The events that the prompt marketplace contract publishes.

- `src/` (verified with Verus): one plain struct per event and `Events`, whose
  constructors build each event from the values it reports; their contracts
  state that every field is the argument it came from.
- `app/`: the `#[contractevent]` copies of those structs, conversions in both
  directions, and `Events::emit_*`, which build an event with the verified
  constructor and publish it to a `soroban_sdk::Env`.
- `tests/`: tests of the constructors.
