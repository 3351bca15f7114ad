# guessr

The rules of a multiplayer geography guessing game that runs as a Solana
program on an ephemeral rollup: lobby presence, duel and ranked rooms, a
matchmaking ring buffer, player profiles, leaderboards, reward claims, and
what is delegated to and committed back from the rollup.

- `src/` is the library, verified with Verus. Each handler takes the accounts
  as plain values and returns the new values, or the error, with a contract
  that states both exactly; token and rollup calls come back as plain
  descriptions of what to do. `src/laws.rs` holds the properties that span
  several operations (online counts, ranked leaderboards, seat counts, final
  settlements, a paid claim refusing a second payment, the pool's ring
  order, distinct commit targets). `src/chain.rs` holds the one outside
  call, the program address derivation, and the program ids that the
  associated token address is derived from.
- `tests/` runs the library on concrete values.
- `app/` is the Anchor program around the library: account declarations,
  entry points, the clock, and the token and rollup calls.
