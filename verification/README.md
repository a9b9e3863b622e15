# admin_api

The logic of a Keycloak-compatible admin REST API that keeps its data in
SQLite and runs as a Spin HTTP component, written in Verus.

- `src/` is the verified library: the admin-token check that every
  request passes first (the `x-admin-token` header against the
  `admin_api_token` setting, `dev-admin-token` by default; 401 without
  it, 403 with another value), request routing and method checks, the
  checks on request bodies,
  query-string parsing, the SQL statements of the listing and counting
  endpoints, the column layouts of the stored documents and the
  statements built from them, group paths and the walks over the group
  tree, the checks a new group and a realm update must pass, priorities,
  realm keys, identifiers and database initialization.  Every public
  function states its result in its contract, except the reading of the
  clock, which can be any value; the laws that relate several functions
  (a routed path reads back from its route, `client-templates` routes
  like `client-scopes`, a parsed query agrees with a direct lookup,
  joined query strings join their values, the user count filters like
  the user list, a group path reads back as its names, and others) are
  public proof functions.
- `tests/` runs the library on concrete requests.
- `app/` is the component around it: it opens the database, routes each
  request through the library, runs the statements and writes JSON.
