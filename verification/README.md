# grocery

A small web service for shared shopping lists, with its decisions verified by Verus.

- `src/` is the verified library: decimal text of ids (`decimal`), percent-encoding
  (`url`), the encrypted cookies (`cookies`), the database rows and password checks
  (`db`), the steps of registering a user (`db::user_creation`), the configuration
  (`env`), the flash message (`flash`, `extractor::flash`), the authentication flow
  of a request (`extractor::auth`), the login flow and the decisions of every
  handler (`routing`), and the pages with the values they are rendered with and
  their fallbacks (`template`, with the rows as JSON values in `row_values` and
  `json`). Each outside call (tower-cookies, argon2, base64, urlencoding, tera)
  stands behind a small trusted item. Its contract states what the crate's source
  shows of the call: what the private cookie jar holds and sends after a store or a
  removal and what a read gives, the hash and check of a password, the decoded key,
  the encoded text, the JSON values built; of a Tera rendering, whose page may
  depend on the time or chance, only that the outcome belongs to the template and
  values it was handed.
- `app/` is the server around it: environment, PostgreSQL queries (sqlx), axum
  routing and extractors.
- `tests/` runs the library against the real outside crates.
