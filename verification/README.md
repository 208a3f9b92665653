# evolith

The verified core of the Evolith platform backend, written in Verus.

- `src/` is the library. Every rule of the backend that does not need I/O stands
  there with its contract: configuration checks, the in-memory cache and its
  expiry, password strength and Argon2id hashing, session-token claims, webhook
  signatures and quotas, Stripe forms and subscription records, the transactional
  outbox, the repositories' records, statements and row decoding (with the JSON
  they store), git request checks and bounded
  tree and diff collection, skill documents, the sandbox pool and mail messages.
  Laws that relate several operations are public proof functions named `law_*`.
- `app/` holds what runs around the library: loading the configuration, Redis,
  SMTP, JSON Web Tokens, Stripe requests, git storage on disk, Docker and YAML
  decoding, and the serde decoding of stored dependency lists. It calls the library
  for every decision.
- `tests/` exercises the library on concrete values.
