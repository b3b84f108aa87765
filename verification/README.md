# product_stalker

Tracks product pages for availability and price. The library in `src/` is
written in Verus: every function states what it returns in its contract,
and the contracts are proved.

- `src/` — the verified library: price parsing with exact decimals, the
  bot-protection verdict, the page readers (JSON-LD, Next.js page props,
  analytics pushes), the Shopify and Uniqlo adapters' decisions, the fetch
  fallbacks, the availability bookkeeping (back in stock, price drops, bulk
  summaries), settings validation and merging, and the background
  checker's schedule. `src/laws.rs` states properties that span functions.
- `tests/` — scenario tests of the library.
- `app/` — a command-line program around the library: it makes the HTTP
  requests, decodes the stores' JSON with serde and prints summaries.

Calls into `rust_decimal`, `url`, `scraper` and `serde_json` are made from
the library through small trusted wrappers whose contracts name what the
crate computes.
