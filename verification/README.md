# wall_streets

Escrow logic of a mural-project marketplace on Solana: a wall owner registers a
wall with a budget, artists propose a price (cost plus profit) within it, the
owner approves one and escrows the price, both parties sign a multisig to start
the project, the artist records expenses within the cost while the project is
active, both sign again to settle (the artist gets profit plus expenses, the
owner the unused cost), a contract NFT is minted for the settled project and
each party prints its own edition of it, and the project's accounts are closed.

- `src/` is the verified library (Verus). Each instruction of the program is a
  struct holding the data of its accounts, with methods that decide and update
  that data and describe the token and metadata calls to make
  (`src/actions.rs`). `src/laws.rs` states and proves properties that span
  several operations.
- `app/` is the on-chain program (Anchor): account validation, the calls into
  the token and metadata programs, and the hand-over of account data to the
  library.
- `tests/` exercises the library on concrete accounts.
