# klipy

A client library for the KLIPY API (GIFs, stickers, clips, memes and AI
emojis), written in Verus.

The library in `src/` decides every request and what every answer means, and
its contracts say so exactly:

- `client.rs`: `Klipy` and `KlipyBuilder` (key, base URL, HTTP client) and the
  client-wide requests (emoji generation and status, search suggestions,
  autocomplete);
- `endpoints.rs`: the per-kind endpoints and the list, share and report
  builders, with the ad parameters;
- `http.rs`: the HTTP client, with the `User-Agent` it was built with;
- `request.rs`: the `Request` value (method, URL, query, JSON body);
- `response.rs`, `model.rs`, `error.rs`: status checks, envelopes,
  acknowledgements, and the answer types;
- `params.rs`, `text.rs`, `json.rs`: wire names, decimal numbers, joined lists
  and JSON bodies;
- `laws.rs`: properties proved across functions.

`app/` sends the requests over `reqwest` and reads the JSON answers with
`serde`, through the library's functions. Building a client returns an
error, where a panic would otherwise come, when no HTTP client can be built
on the machine.
