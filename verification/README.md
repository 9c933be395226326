# stellar_grants

Milestone-based grant escrow, verified with Verus.

Owners create grants with a number of milestones and a list of voters; funders deposit tokens
into a grant's escrow; owners submit milestones; voters approve or reject them with votes
weighted by reputation, a strict majority of the total weight deciding; a grant ends either
cancelled, refunding its escrow pro rata to the funders, or completed, refunding what remains
after the milestone amounts. Voters may stake on a grant, be slashed to a treasury by the admin,
and unstake once the grant has ended.

Every entry point that acts for an address requires that address to have authorized the call;
the staking configuration, slashing and the identity oracle belong to the admin recorded by
`initialize`. A grant owner does not vote on its own milestones, and once a minimum stake is
configured a voter must hold it.

Layout:

- `src/` – the verified library. `env.rs` models the host environment a call runs in
  (persistent storage, ledger time, the contract's address, the addresses that authorized the
  call, the token transfers and events a call asks for); `storage.rs` the persistent storage;
  `contract.rs`, `funding.rs`, `refund.rs` and `voting.rs` the entry points with their
  contracts; `reentrancy.rs` the lock around token calls; `guards.rs` the range checks that tell
  whether a call's unchecked arithmetic stays in range; `laws.rs` properties across calls;
  `keyed.rs` a finite map kept as a list with distinct keys.
- `tests/` – tests run against the compiled library.
- `app/` – the Soroban contract: it has the host check authorization, loads storage into the
  model, runs the library, then writes storage back, transfers tokens and publishes events.

Design notes:

- The ledger's `Map`, `Vec` and `String` are host objects: each value is a handle into a Soroban
  `Env`, made and read through host calls, and the keys and values stored in them need the
  SDK's `contracttype` derive. Verus accepts a declaration of the ledger `Map` type, but the
  library could then neither make a map without a host environment (outside a contract call only
  the SDK's test host provides one) nor store its own types in it, since that derive cannot stand
  in verified code. So the library models the ledger data with its own types
  (`keyed::KeyedList` for maps, `Vec`) and `app/` converts at the boundary. Text is kept as the bytes of the ledger string (`Vec<u8>`), so length limits
  count bytes, as on the ledger, and any byte string is accepted.
- Where the contract's own arithmetic is unchecked (summing contributions on cancellation, the
  paid amounts and remainder on completion, vote tallies and rewards, the grant counter) the
  call traps on overflow; `guards.rs` says in advance whether it would, and `app/` traps then.
