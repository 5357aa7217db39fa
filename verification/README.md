# runtime_mocks

Mock runtimes for pallet tests, verified with Verus: the contract runtime
with delegated dispatch ("doughnut") verification, the test runtime of the
Aura pallet, and the module layout of the `runtime_interface` attribute.

- `src/` – the verified library: runtime parameters (`params`), the fee
  constants and their getters (`fees`), the externalities builder
  (`ext_builder`), the mock doughnut and its verifier (`doughnut`),
  contract addresses, child-trie ids and dispatch fees (`contracts_mock`),
  code hashes (`code_hash`), the Aura genesis (`aura_mock`) and the
  runtime interface module (`runtime_interface`).
- `tests/` – tests of the library on concrete values.
- `app/` – the thread-local fee constants, the WebAssembly text compiler
  front end and the SCALE-encodable doughnut.
