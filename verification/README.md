# vaa

A verified core for checking and sealing machine-generated assembly: evidence
reports and their seals, the candidate chain, the content-addressed cache,
generator suites and repair packets, the agent harness's line protocol, and
DSSE/Fulcio/Rekor transparency records.

- `src/` is the library, written in Verus. Each public function carries a
  contract over plain mathematical values, and the laws that relate several
  functions stand as public proof functions (`law_*`). Calls into outside
  crates (sha2, base64, ed25519-dalek, serde_json, object) go through small
  trusted wrappers whose contracts are stated in their doc comments.
- `app/` holds what cannot be verified: file and process I/O, HTTP
  transports, serde types, and the loops that drive the library's step
  functions.
- `tests/` runs the library on concrete values.
