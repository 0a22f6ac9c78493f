# mangaplus-api

Verified client-side rules for the MANGA Plus mobile API.

`src/` is the library, checked by Verus:

- `lang` — the supported language codes, normalization (ASCII
  case-insensitive, English by default) and the `Title.language` wire enum.
- `client` — `ClientConfig` and its defaults, the image concurrency floor
  and the request pacing rule.
- `request` — API URLs, the mandatory query parameters and the parameters
  of every endpoint, and the HTTP status check.
- `response` — server errors, the success payload each endpoint expects,
  and the language checks on title details and chapter viewers.
- `image` — content type from a URL, the cache key of a CDN URL, the
  backoff schedule and retry state of an image fetch, the image size cap.
- `register` — the device token and security key of a fresh registration.
- `cache_gc`, `path_order` — which cache files are pruned, in which order,
  and the tally.
- `error`, `proto`, `text` — the error type, the message types the rules
  read, and string helpers.

`app/` is the async HTTP client and the file-system side of cache pruning,
built on the library.
