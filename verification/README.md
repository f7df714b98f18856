# listas

The rules of Listas, a service for keeping lists of links to read, written in Verus
and proved against their contracts.

- `src/` is the verified library: object ids and their hexadecimal form, tag
  sanitizing, slugs, URL parsing, import payloads, users (passwords, tokens, premium
  state), lists, resources, integrations, the stages of the resource searches and of
  the list aggregation pipelines, completion and positions of resources, Google ID
  token checks, page metadata, feed and Traer answers, and the HTTP codes of errors.
  Calls into outside crates (bson, chrono, rand, url, slug, Inflector, bcrypt,
  select, validator) stand behind small trusted wrappers whose contracts say what the crates
  promise.
- `app/` is the server around it: actix-web handlers and extractors, the resource
  routes over MongoDB (wither's bson and mongodb), reqwest clients of the outside
  services, jsonwebtoken signing, bincode and serde_qs encodings, maud emails.
- `tests/` runs the library on concrete values.
