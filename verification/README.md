# netpaint

The decision logic of two services, proved with Verus:

- the network thread of an HTTP client: which requests start, where they connect to,
  which TLS contexts are kept, what an abort does, and the TLS tunnels that lead
  through proxies (`src/thread`, `src/tunnel`);
- a paint service: which painter a message goes to, what is answered for painters
  that are gone, how batches of messages are handled, and how it goes down
  (`src/paint`).

The library computes on plain values. Sockets, TLS engines, painters and event loops
are named by handles. A function returns what is to be done, and what came of it is
handed to the function that goes on. `app/` holds the loops that do so, over traits
that an embedder implements.

Contracts are stated over views (`TunnelView`, `ThreadView`, the painters of a
`Paint`). What holds across functions stands as proof functions in the `laws` modules
and beside the types that it concerns.

Four outside crates are called from verified code, each behind a function whose
contract is believed and not proved: `bun_core` (is a name an IP address),
`bun_collections` (a map that keeps positions), `webrender_api` (keys) and
`webrender` (sums of memory reports).
