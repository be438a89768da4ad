# velora

The verified core of the Velora services: an auth service (registration,
login, refresh-token rotation, logout), a REST gateway in front of it, and a
users service that keeps accounts and their profiles.

`src/` is the library, checked by Verus:

- `text`, `hexcodec`, `ids`: character-level helpers (Unicode whitespace,
  trimming, UTF-8 byte length, ASCII case folding), hexadecimal text, UUIDs.
- `config`, `auth_config`: configuration read from an environment snapshot.
- `auth_domain`: e-mail addresses, passwords, users.
- `crypto`: Argon2id password hashing, refresh tokens and their SHA-256
  fingerprints.
- `paseto`: PASETO v4.public access tokens (issuing and checking).
- `auth_app`: the auth use cases, split at the storage calls, and the session
  store's keys and values.
- `grpc`: gRPC status codes and the mapping of auth errors onto them.
- `gateway`: the REST error type, request-body checks, bearer authentication.
- `users_domain`, `users_app`: accounts, profiles and the users use cases.
- `events`: integration events and the outbox relay's batch.

`app/` runs the services (`auth`, `users`, `gateway`, `genkeys`): Postgres,
Redis and NATS adapters, the axum routes, and the loops that drive the
library's steps.
