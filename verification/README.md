# governance_contracts

A verified role registry and weighted-governance library.

* `src/access_control/`: the role registry (`roles`, `grant_revoke`, the
  `AccessControl` entry points) over `env::Env`, the contract's ledger state:
  role memberships, the revocation epoch and nonce, and the published events.
  `laws.rs` holds the properties that span calls (a revocation is visible to
  the very next check and to every later one until the same pair is granted
  again, refused requests change nothing, the epoch and nonce never go
  backwards along any sequence of calls, ...).
* `src/governance/`: proposals, quorum evaluation against the eligible weight
  snapshotted at creation (a finalized proposal takes no more votes), and
  `laws.rs` for quorum and tally properties.
* `src/governance_voting/`: a tally that counts each voter once; `laws.rs`
  relates its total to any sequence of recorded votes.
* `src/weight_sum.rs`: the sum of a map of weights and its lemmas.
* `app/`: the Soroban contract shell around the registry: signature checks,
  ledger storage and event publication.
