# acp_connector

An agentic-commerce payment connector. A client delegates a card under an allowance
(amount, currency, merchant, checkout session, expiry) and receives a one-time vault
token; a merchant later validates an order against that token, which consumes it.

- `src/` is the library, verified with Verus: the card checks (Luhn, expiry, CVC, IIN),
  decimal parsing and formatting, the error answers, the store's keys and lifetimes, and
  the two endpoints as state machines (`routes::delegate_payment`, `routes::validate_payment`)
  whose steps say what to ask the store next.
- `app/` is the HTTP server: actix-web handlers that run those state machines against Redis,
  with serde forms of the library's types.
- `tests/` exercises the library on concrete inputs.
