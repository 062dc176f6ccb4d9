# cw20-ics20

A CW20 / ICS-20 bridge contract whose logic is verified with Verus.

- `src/` is the verified library. The contract's state (admin, allow list,
  contract-to-denomination index, channels) is a value of `ContractState`,
  viewed as maps; `contract.rs` holds the entry points as functions from the
  state and a request to the new state and the answer, each specified by an
  `*_outcome` spec function; `laws.rs` proves what holds across requests.
- `app/` is the CosmWasm contract around it: storage, address validation,
  JSON encoding and the conversion to `cosmwasm_std` messages.
- `tests/` runs the library on concrete values.
