# reth-tdx

A remote prover for Shasta proposals. It runs inside a TDX protected VM beside a
trusted L2 node, and signs what that node says with a key that never leaves the VM.

A caller sends what derives from L1. The prover fetches the L2 block of the proposal
from the local node, builds the carry data of the two, signs the hash of its
commitment, asks the `tdxs` attestation daemon for a quote over the same hash, and
answers with an 89-byte proof, `instance_id(4) || address(20) || signature(65)`, and
the quote. Proofs that it signed can be aggregated into one.

| Method | Path                      | Purpose                              |
| ------ | ------------------------- | ------------------------------------ |
| GET    | `/health`                 | Liveness probe                       |
| GET    | `/bootstrap`              | Bootstrap record                     |
| POST   | `/prove/shasta`           | Prove one proposal                   |
| POST   | `/prove/shasta-aggregate` | Aggregate proofs that were signed    |

```
reth-tdx bootstrap     # make the key and its quote, print the record
reth-tdx check         # check the daemon, the local L2 node and the stored key
reth-tdx serve         # run the HTTP server
```

## Layout

- `src/` is the library, verified with Verus. It holds every decision. Whatever needs
  the outside in its course (a proposal, an aggregation, a bootstrap, a check) is a
  chain of stages: a stage says what is to be done next, and takes what came of it to
  the following stage.
- `app/` is the program: the command line, the HTTP server, the socket of the daemon,
  the file system and the JSON forms. Besides the dependencies of the library it needs
  `alloy` for JSON-RPC and raiko2's `raiko2-primitives-shasta` and
  `raiko2-protocol-shasta` for the commitment hash.
- `tests/` runs the library.

What the library takes on trust is the functions marked
`#[verifier::external_body]`: calls of `hex`, `alloy-primitives`, `secp256k1`, `rand`
and `dirs`, and the debug format of `char`. What is claimed of each stands above it.
