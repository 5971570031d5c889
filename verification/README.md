# nexus

Risk controls of a trading system, with their behaviour stated as Verus
contracts and proved.

- `src/` is the verified library: the global state machine, token-bucket
  throttle, velocity-of-loss and PnL-derivative breakers, the pre-trade
  gatekeeper (price collars, fat-finger checks, position limits, order
  queue), the kill switch with its flattening state machine and TWAP
  router, the tree structure of C-vine and D-vine copulas, the hysteresis
  of the doomsday hedging levels, the pacing of deleveraging actions, and
  the 16-byte frame of the agent's hybrid action. Money amounts are
  integers (micro-USD, scaled prices, basis points).
- `app/` is ordinary Rust around it: thread-shared handles, adapters from
  floating-point USD to the library's integers, and a selection of the
  floating-point models (auto-deleveraging, cross-venue margin,
  liquidation, GPD fitting, tail-risk parity, Student-t and vine copulas,
  Hawkes processes and Ogata thinning, the doomsday signals, the hybrid
  action, and the Lyapunov, QP projection and invariance-guard safety
  layer). The other floating-point models are not carried.
- `tests/` exercises the library from outside.
