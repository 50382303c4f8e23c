# catalog

A product catalog library verified with Verus, and the HTTP API around it.

- `src/` is the verified library:
  - `store`: products kept in PostgreSQL — the checks made before a product
    is created, the rows written for a creation or a change of publication,
    and how rows read back become products; with the laws that tie them.
  - `memory`: the in-memory catalog, whose listing is exactly the products
    created, in order.
  - `reply`: the status, code and message that answer each refusal.
  - `adapter`: products of an outside feed mapped to creation requests.
  - `config`: the service settings, all required outside local development;
    local fallbacks apply only when `ENV` is `development`.
  - `ids`: UUID text for product and request identifiers.
  - `text`: whitespace, blank text and port numbers, as `std` reads them.
  - `external`: the database driver types carried through the library.
- `app/` is the server: environment, database statements, JSON and routing.
- `tests/` runs the library on concrete values.
