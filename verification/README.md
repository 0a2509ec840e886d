# corepc_client

A JSON-RPC client for Bitcoin Core whose request and error logic is verified
with Verus.

* `src/` is the verified library (`corepc_client`):
  * `client_async::client` — the `Builder` (URL validation, timeout and
    credential checks) and how the outcome of an exchange becomes a result;
  * `client_async::auth` — credentials, including reading a `.cookie` file's
    `user:pass` line;
  * `client_async::error` — the error model: retry classification, the
    "not found" inspectors, display texts, and the mapping of JSON-RPC
    failures;
  * `client_async::json` and `client_async::v31` — each RPC method's options
    and how its arguments encode into Core's positional parameters (`null`
    for an unset optional argument, unset fields left out of object
    arguments);
  * `client_async::text` — trimming, ASCII case folding, substring search,
    decimal rendering and UTF-8-aware truncation.
* `app/` is the async client around it: it reads the cookie file, builds the
  `jsonrpc` HTTP transport, sends requests, and carries the methods whose
  arguments hold floating-point amounts.
* `tests/` exercises the library on concrete values.
