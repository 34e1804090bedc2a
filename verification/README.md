# zeroclaw

A verified library for two ways of talking to an agent:

- an ACP server, which opens, prompts and stops sessions on JSON-RPC requests,
  one on each line;
- a GitHub channel, which takes comments on issues and pull requests by webhook
  and sends replies through the REST API.

`src/` is the library. Every function states what it returns, as far as that
does not rest on the clock or on chance, and Verus proves it; what is made of the
present time or of a random id is stated where these are arguments. The
properties that span functions are the proof functions whose names start with
`law_`. What the library gets from other crates (`serde_json`, `chrono`, `hex`,
`hmac`, `sha2`, `uuid`) and from the standard library stands behind functions
marked `external_body` and specifications, each with a comment that says what is
taken on trust.

`app/` does the input and output around it: the loop over standard input, the
file system, and HTTP. `tests/` runs the library with the real crates.
