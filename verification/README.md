# openfoodfacts

A client library for the Open Food Facts web API, verified with Verus.

- `src/builder.rs`: the builder `Off` (locale, credentials, user agent) and the
  client it makes, with the headers that the client sends.
- `src/client.rs`: `OffClient`, whose methods give each API call as the `GET`
  request (URL and query) that asks it.
- `src/web.rs`: the calls into the `url` crate (parsing and joining URLs) and
  into `reqwest` (header values), each behind a trusted item.
- `src/laws.rs`: properties that hold across calls and clients.
- `app/lib.rs`: the network side: it makes the `reqwest` client and sends the
  requests.
