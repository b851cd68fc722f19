# crust

Peer-to-peer connection building blocks, verified with Verus.

`src/` is the verified library:

- `uid` — peer identifiers and the order that decides which side of a
  connection chooses it.
- `addr` — IP and socket addresses as plain values, whitelists, global addresses.
- `message`, `error` — handshake messages, events, connection info and errors.
- `handshake` — what each handshake sends and what each reply means
  (address echo, bootstrap connect and accept, connect and choose).
- `connect` — the state of a connection attempt: what to dial, which
  connection becomes the peer, and how the attempt fails.
- `compat` — a service's state: connected peers, running tasks, and the
  events the ends of its work produce.
- `write_queue` — the prioritised queue of outgoing messages and its expiry rule.
- `socket`, `peer` — the live/destroyed state of a socket and a connected peer.
- `connection_map` — connected peers by identifier.
- `first_ok`, `drop_notify`, `demux`, `discovery`, `service`, `util` — the
  state machines and small decisions around them.

`app/` holds the futures-based drivers over tokio-core (TCP sockets and their
write task, connecting, the accepting side of bootstrap, the discovery
server, a service on one reactor, the drop notifier, the first-success
future, the bootstrap acceptor) and the serde wire forms of the messages.
