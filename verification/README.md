# ranklab

The logic of Ranklab's coaching-marketplace backend as a verified library:
Stripe ids, order parameters and tax forms, webhook signature checking,
password and reset-link handling, request validation, the review life cycle,
and the joins and keys that the HTTP handlers compute.

- `src/` — the library, verified with Verus. `src/routes/` mirrors the
  service's handlers and holds the decisions each one makes apart from its
  database and network calls.
- `tests/` — tests of the library on concrete values.
- `app/` — the edges: HTTP calls to Stripe's tax API, reading webhook
  payloads, JSON request bodies, and the fee arithmetic done in floating
  point.
