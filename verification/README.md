# testquorum

The verified core of the TestQuorum test runner, written in Verus.

- `src/` is the library. Every executable function there has a `requires` /
  `ensures` contract that Verus proves; the few calls into outside crates
  (base64, sha2, ed25519-dalek, rand, serde_json) and into std go through
  small trusted wrappers whose contracts their doc comments explain.
- `app/` is the command-line program around it: argument handling, reading
  the environment, files and JSON documents, spawning the test tools, and
  git access. It hands the library plain values and acts on what comes back.
- `tests/` exercises the library on concrete inputs.

Network access to the TestQuorum service (authentication, ranking, result
upload) is not part of this build: its API client is generated from a service
description that is not included. The pieces of those exchanges that are pure
computation — the handshake's inputs and signatures, the artifact archive and
its requests, and the step after each reply — are in `src/` and verified.
