# Coinflip

A verified library for a game on Solana in which players bet **0.1 – 10 SOL**
on heads or tails against a house treasury. The flip lands on the player's pick
with 49% probability; a win pays out twice the bet, a loss forfeits it. The
outcome is decided by the hash of a slot that does not exist yet when the bet
is placed.

```
src/program.rs      the six instructions
src/accounts.rs     the accounts each instruction is given, and their checks
src/actions.rs      what an accepted instruction has the runtime do
src/outcome.rs      from slot hash to roll, the win rate and the house's edge
src/slot_hashes.rs  lookup in the raw SlotHashes data
src/addresses.rs    the addresses derived for config, treasury and bets
src/house.rs        the house as a whole: solvency over any run of instructions
src/laws.rs         what the instructions promise together
app/                the Anchor program around the library
tests/              whole games, and the parts they are made of
```

An instruction is a function from plain values (the accounts as they stand, the
clock's slot, the rent minimum, the SlotHashes data) to a refusal, or to new
account data and the transfers and closings that the runtime is to carry out. A
refused instruction changes nothing.

What is not proved stands in four small functions that call `solana_program`
through `anchor_lang`: SHA-256, the derivation of program addresses with and
without a search for the bump, and the comparison with the sysvar's address.
