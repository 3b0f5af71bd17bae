# crates_io_logic

The request, pagination, publishing and configuration rules of the
crates.io registry backend, as a library whose functions carry
`requires`/`ensures` contracts proved by Verus.

Layout:

- `src/` — the verified library. Each module covers one area of the
  backend: pagination and seek keys (`pagination`), crate listings and
  their keyset conditions (`search`, `listings`), publishing checks
  (`publish`, `deleted`), owners and invitations (`owners`, `invitations`),
  sessions and signup (`session`), API tokens (`tokens`), secret-scanning
  alerts (`secret_scanning`), configuration from environment values
  (`config`), and smaller endpoints. `text`, `time` and `semver` hold the
  shared models of strings, timestamps and versions.
  Calls into outside crates (base64, semver, chrono, regex, badge,
  serde_json, p256, sha2, hex, indexmap, http) go through small trusted
  wrappers whose contracts are stated next to them.
- `tests/` — tests of the library on concrete values.
- `app/` — the unverified code around it: reading the environment, running
  `git http-backend`, the JSON forms of seek keys and pending signups, and
  the floating-point settings.
