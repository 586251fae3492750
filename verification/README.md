# swmmrs_native

The native layer of the `swmmrs` Python package as a verified library: the Simulation Owner's
lifecycle and Project Generation rules, Live View checks, and the extraction and validation of
every setting that Python hands the solver, each with a Verus contract.

- `src/` — the verified library. Python values arrive as `value::PyValue`; solver reads and
  mutations arrive as closures, so that the library decides what is asked and what the caller
  sees, for every outcome of the solver.
- `tests/` — tests of the library on concrete values.
- `app/` — the `_swmmrs` extension module: it converts Python objects, holds the solver behind
  the owner lock, and runs the library's decisions.
