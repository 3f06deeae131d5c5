# swapverse

A verified model of the Swapverse stable-coin swap pools, with the Solana
program around it.

- `src/` is the library, checked by Verus: the pool states, the account rules
  of each instruction, the arithmetic of swaps, withdrawals and profit claims,
  the life cycle of a pool (investment, activation, withdrawal), and the
  sequencing of calls to the token program for accounts that are kept frozen.
  Each instruction is a method on a plain-value view of its accounts; it
  returns the amounts that the program must then move.
- `app/` is the Anchor program: account validation by seeds, reading the
  clock, converting accounts to the library's values and back, and the token
  program calls.
- `tests/` runs the library on concrete values.
