# firebaseremoteconfig1

A client for the Firebase Remote Config API (v1) whose request logic carries
machine-checked contracts and proofs.

- `src/` is the verified library: the hub settings, the call builders of the
  `getRemoteConfig` and `updateRemoteConfig` methods, the schema types, the
  query-parameter operations, and `api::exchange`, the state machine that
  decides, step by step, what a call does and how it ends.
- `app/` runs an exchange against the network: it holds the HTTP client, the
  authenticator and the delegate, (de)serializes JSON, and performs the
  actions that the exchange asks for.
- `tests/` exercises the library on concrete values.
