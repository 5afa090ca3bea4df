# iam

Identity and access management for the Verseghy services, as a Verus library.

- `src/` is the verified library: password hashing and checking (`password`), token
  claims and the `Authorization` header (`token`), permission checks (`auth`), the
  decisions of the HTTP handlers (`handlers`), request validation (`validate`), the
  client helpers (`client`) and the migration data (`migration`).
- `app/` is the server around it: configuration, database, store, mail and HTTP.
- `tests/` runs the library on concrete values.
