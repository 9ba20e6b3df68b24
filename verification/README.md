# eip_7732 — verified ePBS consensus logic

A Verus library for the consensus-side logic of EIP-7732 (enshrined
proposer-builder separation): processing of builder bids and PTC payload
attestations, the asynchronous withdrawal commitment, the builder registry,
the honest builder's bid/envelope construction and slot lifecycle, and the
fork-choice store that tracks Full / Empty / Skipped slots.

Layout:

- `src/` — the verified library. Verus checks every function in it; the public
  operations carry `requires`/`ensures` contracts, the calls into `blst` and
  `sha2` sit behind a few trusted wrappers in `utils/`, and the laws that
  relate several operations are public proof functions next to the operations
  they speak of.
  - `beacon_chain/` — containers, constants, bid and attestation processing,
    withdrawals, registry, and in-memory state types implementing the state traits.
  - `builder/` — bid and envelope construction, the honest builder state machine.
  - `fork_choice/` — the ePBS fork-choice store and its event handlers.
  - `p2p/` — gossip topic names.
  - `utils/` — SHA-256 signing roots (`sha2`), BLS verification and signing (`blst`),
    byte comparisons.
- `app/` — serde copies of the containers (the JSON encoding that signing roots
  are computed over), `std::error::Error` copies of the error enums, and entry
  points that encode messages as JSON before calling the library.
- `tests/` — behavioural tests of the library.

Signing roots are computed from a message's canonical encoding, which the
caller supplies (`app/` produces it with serde_json); BLS and SHA-256 results
are named in the contracts rather than restated.
