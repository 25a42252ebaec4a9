# omx

The logic of the OMX perpetual exchange contracts (vault, positions, fees,
funding, swaps, the OLP liquidity pool, price feed, shorts tracker, reward
tracking and distribution, tokens, order books and routers), written in
Verus with its contracts proved.

- `src/` is the verified library. Each contract's state enters a function
  as plain values (amounts as `U256`, addresses as `Address`) and the new
  state comes back; 256-bit arithmetic is delegated to `ruint` and
  `alloy-primitives` through a few trusted wrappers in `src/uint.rs`, and the
  position key's hash to `alloy-primitives` in `src/position_key.rs`.
- `src/*::lemma_*` proof functions state what holds across calls: supplies
  equal the sum of balances, pool reserves stay within the pool and the pool
  within the tokens held, liquidation always closes a position, the
  maximizing price is never below the minimizing one, liquidity added and
  redeemed at once returns no more than it brought, guaranteed USD follows
  `size - collateral` of the long positions, funding updates are idempotent
  within an interval, distinct positions hash distinct key data, and others.
- `tests/` exercises the library on concrete values.
- `app/` holds what the chain needs around it: conversions to and from
  `alloy-primitives`, the revert data of each error, and drivers that
  perform the calls the routers decide on.
