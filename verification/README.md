# poc_consensus

A consensus engine for Proof-of-Capacity, with its behaviour stated in contracts and proved by
Verus.

- `src/` is the engine: digests and their encodings, epochs, the challenge of a slot, the claim of a
  slot, the verification of a block, its import and the fork choice. It does no I/O. Where it
  needs something of the node it gives out a question, and takes the answer in the next step.
- `app/` runs the engine inside a node: it asks the node, hands on the answers, and does what the
  engine decides.
- `tests/` runs the engine on concrete values.

Modules whose names end in `_laws` hold what is proved of whole runs: a new block is imported if
and only if there is nothing wrong with it, the weight of a chain counts its blocks, the heaviest
chain wins, epochs follow each other without a gap, and so on.

What is taken on trust is marked `external_body`, each item with a comment that says what is claimed
of it: calls into `ring`, `schnorrkel`, `sp-core`, `sp-consensus-vrf`, `sp-inherents` (with the slot
type of `sp-consensus-slots`) and `parity-scale-codec`, and `String::from_utf8_lossy` of the standard
library. `InherentData` of `sp-inherents` is declared as an opaque type. The bodiless spec functions
name what some of these calls return.
