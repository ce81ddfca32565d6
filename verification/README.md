# escrow_amm

Verified rules of two Solana programs written with the Anchor framework:

- `src/escrow.rs`: the escrow's `update` instruction (new asked amount, new
  expiration not before the clock) and the account checks that guard it
  (signer, writability, derived address, stored maker, expiry). The clock is
  read by a trusted wrapper and handed to verified functions
  (`update_with_clock`, `check_expiry_with_clock`); `process_update` runs the
  whole instruction and returns the escrow to store, which is the old one
  whenever the instruction fails.
- `src/amm.rs`: the pool's `lock` / `unlock` instructions (only the pool's
  authority may change the lock flag) and their account checks.
- `src/framework.rs`: the framework's error kinds and little-endian seed bytes.
- `src/pubkey.rs`: addresses as plain bytes.
- `src/runtime.rs`: the two calls into `anchor_lang` (clock sysvar, program
  address derivation), with the contracts Verus believes of them.
- `app/lib.rs`: glue from the framework's `AccountInfo` and errors to the
  library.
