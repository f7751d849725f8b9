# swipe_server

The logic of a GraphQL server over a user and a party table, verified with
Verus.

- `src/` is the library: paging parameters and their cursors (decimal text of
  creation timestamps, read back exactly as `str::parse::<i64>` reads it), the
  listing queries and the pages made of their rows, the rows written on
  creation (under a fresh random UUID), the reading of a GraphQL request out
  of the text of a JSON body (parsed by `serde_json`), and the lookup of users
  by UUID text.
- `app/` is the server around it: actix-web routes, the juniper schema, the
  diesel queries against MySQL and the Rocket request glue.
- `tests/` runs the library on concrete values.
