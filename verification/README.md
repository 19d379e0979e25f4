# anchor_programs

Verified account logic of five Solana programs written with Anchor:

- `anchor_vault`: a per-user lamport vault (deposit, withdraw, close);
- `anchor_escrow`: a token escrow offer (make);
- `marketplace`: an NFT marketplace (list, delist, purchase);
- `pika_vault`: Pika Vault, a marketplace for real-world collectibles
  (register, create the marketplace, mint and list, delist, purchase into an
  escrow, refund);
- `staking`: NFT staking (configure, unstake after a freeze period).

`src/` is the library, verified with Verus. Each handler is a method on a
struct that holds, as plain values, what the handler reads from its
accounts. The method checks the account constraints, computes the new
account states, and returns descriptions of the cross-program calls to make
(`src/cpi.rs`). Contracts state the result exactly; `src/pika_vault/laws.rs`
and `src/anchor_vault.rs` prove properties that span instructions, among
them that the program's refund decision undoes a purchase and that every
instruction keeps each user's counters equal to the numbers of that user's
active, sold and bought listings.

The library reproduces the programs as written, including what makes some
of their calls fail on chain: a Pika Vault purchase leaves the escrow's
bump at zero, so the refund's seed check of the escrow fails unless zero is
its bump, and the refund's transfer debits the program-owned escrow, which
the System program refuses. Other such places are noted where they stand.

`app/` holds the Anchor programs: the account structs with their
constraints, and handlers that call the library, perform the calls that it
describes, and write the new states back.

`tests/` runs the library on concrete accounts.
