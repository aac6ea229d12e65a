# Undertone

A peer-to-peer signalling relay and its client. Clients register with the relay
under a random identifier; the relay forwards each packet addressed to an
identifier, as received, to the connection that registered it.

- `src/` is the verified library: the packet and its wire form (`packet`), the
  relay's routing table (`routes`), the relay's per-connection decisions
  (`server`), the client's decisions (`client`), text search (`text`) and the
  properties that span several frames (`laws`).
- `app/` drives the library with sockets: `undertone server [--host H] [--port P] [-L] [-D]`
  and `undertone client [-c ID] [-s]`.
