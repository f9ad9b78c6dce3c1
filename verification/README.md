# stellar

Reads the state of a privacy pool on Stellar and of the two contracts that watch
over its members, and builds proofs that the key of a note is not in the
non-membership tree.

- `src/` is the library, verified with Verus. It does no input or output: it says
  what to ask of the network, and turns the answers into plain values. What holds
  of it as a whole is in `src/laws.rs`.
- `app/` asks the network and hands the answers to the library.
- `tests/` runs the library on concrete values.

What is taken on trust is the decoding of addresses (`src/strkey.rs`), of contract
values (`src/value.rs`) and of symbols (`src/symbol.rs`) by the Stellar crates, and
how values and texts are shown in an error message (`src/value.rs`,
`src/error.rs`).

Two things are assumed of the contracts: that field elements are those of the
scalar field of the BN254 curve, whose order stands in `src/field.rs`, and that a
value of one kind is never read as another kind (`src/conversions.rs`). The texts
of the errors that follow from these two are this library's own.
