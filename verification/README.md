# zktls

A verified library for zkTLS identity verification: a notary fetches a
target site, commits to the response with SHA-512, signs the commitment with
Ed25519 and issues an attestation that discloses only the fields a
disclosure mask allows; a verifier checks the proof against its trusted
notaries and the attestation's expiry.

- `src/` is the library, verified with Verus. Its modules: `digest` (SHA-512,
  hex), `time` (UTC timestamps), `keys` (the notary's Ed25519 key pair),
  `json` (JSON documents, their compact text, dot-separated paths), `types`
  (session proofs, attestations, disclosure masks), `templates`
  (verification templates and their registry), `session` (signing message,
  proof generation, field extraction, the session store), `verify` (the
  Ed25519 verifier), `notary` (the notary service's decisions: template
  selection, request details, and the steps before and after the fetch),
  `laws` (properties that relate several operations).
- `app/` is the HTTP service around it (axum, reqwest, tokio): it loads the
  key, fetches the target and moves values between JSON and the library.
- `tests/` exercises the library.

## Scope notes

- Disclosure integrity: the transcript commitment that the notary signs is
  the SHA-512 of the whole response body. Disclosed values and the hashes of
  redacted values cannot reconstruct that digest, so the verifier makes no
  reconstruction check and never reports `DisclosureIntegrityFailed`; the
  Merkle commitment that would allow it is not implemented.
- The verifier checks an attestation against its template: the template must
  be one the verifier was given (`add_template`), every required field must be
  disclosed, and a disclosed value must match its field's validation pattern
  (a regular expression, matched with the `regex` crate against the value's
  text: a string's characters, a number's text, `true`, `false` or `null`).
- CSRF pre-fetch: templates carry no CSRF configuration (a `TargetServer` has
  a hostname, path, method and content type only), so the notary never
  fetches a CSRF token before the request, and the `Referer` of a POST is
  always the site's root page.
- Key material: `NotaryKeyPair` keeps its 32-byte seed in a plain array; it is
  not wiped from memory when the key pair is dropped. Deployments that need
  zeroization must handle the memory of the process themselves.
