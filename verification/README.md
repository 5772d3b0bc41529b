# meteobar cache library

The verified core of a weather widget's request cache.

- `src/key.rs`: the canonical request descriptor (`CacheKey::canonical`) and its
  16-hex-digit FNV-1a digest (`CacheKey::digest`), with the laws that distinct
  requests get distinct descriptors and that the digest keeps the hash intact.
- `src/cache.rs`: the cache of one request (`Cache`): file names derived from
  the digest, the lock and temporary file names, and the freshness rule.
- `src/fetch.rs`: the fetch-or-serve-from-cache protocol as a state machine
  (`begin`, `step`) and the `Freshness` of a served payload, with the law that
  a run of the protocol asks for exactly the expected work.
- `src/location.rs`: the choice between coordinates, IP geolocation and
  geocoding of a place name.
- `src/text.rs`: decimal and hexadecimal renderings.

`app/` performs the file, lock and clock work that the protocol asks for.
