# home_gateway

Access control and request authentication for a small HTTPS gateway in front
of home services (Jellyfin, a file share, an admin panel), written in Verus.

- `src/access.rs`: roles and which paths each role may open.
- `src/auth.rs`: users, the claims a session token carries, and the steps that
  admit or refuse a request by its `Authorization: Bearer <token>` header.
- `app/`: the HTTPS server, the axum middleware that runs the library's
  authentication steps and decodes tokens with `jsonwebtoken`, and token
  issuing (clock and JWT encoding).
- `tests/`: tests of the library on concrete values.
