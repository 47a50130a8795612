# shine_auth

The authentication service of shine: user identities, their sessions and
roles, and the decisions of the login and registration pages, written in
Verus with their contracts proved.

## Layout

- `src/` — the verified library.
  - `azure_utils`, `encoding`, `text`, `clock`, `backoff`, `idsequence`:
    storage keys and queries, the text encodings of ids and keys, the retry
    policy and the id sequence.
  - `auth::iam`: the identity and access management — identities with their
    name, email and sequence indices, sessions with their key index, roles,
    fingerprints and errors.
  - `auth::identity`: the identity service with encrypted user ids, logins
    and sessions (`identitydb`, `identity_manager`, `manager`).
  - `auth::login`, `auth::registration`, `auth::iam_handler`, `auth::utils`:
    what the pages and endpoints decide from their input.
  - `authheader`, `bearerauth`, `config`.
- `tests/` — tests of the library on concrete values.
- `app/` — the process: configuration loading, the service state, and the
  loops that run the storage operations against the tables.

Every operation that talks to the table storage is a flow: the library
decides the next action from the state and the reported event, and the
caller performs the action and reports back what the storage answered.
