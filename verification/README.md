# zaino_state

Chain queries over the read-only state of a Zcash validator: `getinfo`, `getblockchaininfo`,
`getblock` and `getblockheader`.

- `src/` is the library. It decides which lookups a query makes and what it answers, and it is
  verified with Verus, apart from the small functions described below. A query is a state machine: starting it gives its first
  step, and each step either asks for a lookup in the validator's state or is the answer.
- `tests/` runs the library on concrete values, against the real `zebra-chain`.
- `app/` connects the library to a running validator: it makes the lookups, reads the clock, and
  computes the difficulty, which is a floating-point number.

What the library takes from `zebra-chain`, `hex`, `chrono`, `indexmap` and `jsonrpc-core` stands
behind small functions marked `external_body`. The comment above each names the function that it
calls and says what is claimed of it.
