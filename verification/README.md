# stk_amm

A constant-product market maker for pairs of assets, written in Verus.

- `src/` is the verified library. `store` holds the storage and its abstract
  view (`Store`), `queries` the balance checks and the prices of withdrawals
  and swaps, `dispatch` the calls that change storage (split where funds move:
  a first part that decides and returns the transfers, a second part that
  settles once they went through), `guards` says on which storage a call
  aborts, `encoding` derives the assets registry's storage key and the market
  maker's account, and `laws` proves properties that span several calls.
- `app/` runs the calls on a chain: origins, the registry's records, native
  and asset transfers, events.
- `tests/` exercises the library on concrete values.
