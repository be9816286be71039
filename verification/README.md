# storekit

Bindings for Apple's StoreKit framework on macOS, in two parts.

- `src/` is the `storekit` library, verified with Verus. It holds StoreKit's value types
  (products, transactions, subscription statuses, renewal info, advanced-commerce metadata,
  verification results, errors), the conversion of every object the Swift bridge sends, and the
  decisions taken on them: which status gives which error, when a verification result hands
  out its payload, when a transaction may be finished, how a stream step ends or times out, how
  a compact JWS is split, how a JSON error is reported without echoing payload values. Each
  public function states what it returns in its `ensures`; the library-wide laws (raw values
  round-trip through every enumeration, a JSON error hides the parser's message, an error shows
  the bridge's message, ...) are public proof functions.
- `app/` is the ordinary Rust around it: the C interface of the bridge, the JSON shapes it sends
  (serde), ownership of live transaction handles and streams, and the async futures.

`tests/` runs the library on concrete values.
