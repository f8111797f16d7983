# sandboxing

Effective filesystem enforcement facts, derived from a permission profile and
proved with Verus.

- `src/` is the verified library. `permissions` derives the facts and answers
  queries, `carveout` finds protected metadata that is granted for reading and
  missing, `policy` holds what is read of a policy and asked of the host, `mode`,
  `glob` and `error` hold the small types, and `path` compares paths.
- `tests/` runs the library on concrete policies.
- `app/` joins the library to the protocol's policy types and to the disk.

The host's policy, roots and matcher are type parameters, and its operations on
them are closures. Contracts state, for every answer a closure may give, what it is
asked about and what is made of the answer. The proof functions whose names begin
with `law_` state what holds of the library as a whole.
