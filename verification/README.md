# bc_forge_admin

Access-control primitives for a Soroban contract, verified with Verus: a
single administrator, role assignments (admins implicitly hold every role),
and multi-signature proposals over critical actions.

- `src/` is the verified library. `AdminEnv` holds the module's storage as
  plain values and records whose authorization each operation requires.
  `src/model.rs` states every operation as a transition of the abstract state
  `AdminModel`; `src/admin.rs` implements the operations and proves them
  equal to those transitions; `src/laws.rs` proves the properties that span
  operations (round trips, id uniqueness, single execution, preserved
  invariants, and what persists over any later sequence of operations).
- `app/` runs the library on a Soroban host: it loads the stored entries
  (role assignments from persistent storage, the rest from instance storage),
  runs an operation, demands the required authorizations with
  `require_auth`, and stores the new entries (guards store nothing); a
  refused operation aborts the invocation with its message.
- `tests/` exercises the library on concrete values.
