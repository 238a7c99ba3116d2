# ppt_tcp

Verified core of a long-connection game server (TCP/TLS for play, HTTP for accounts),
written in Verus.

* `src/` — the library, every function proved against its contract:
  value objects (`value`), aggregates (`account`, `player`, `room`, `session`), errors and
  events, the use cases as stage types driven by the answers of their outside calls
  (`register`, `login`, `progression`), the room actor's command handling (`room_actor`),
  the room service's checks (`room_service`), a keyed registry (`registry`), the
  unauthenticated-connection gate (`auth_gate`), the long-connection rules (`gateway`) and
  the HTTP rules (`http`). Laws of the library are public proof functions next to the
  functions they speak of.
* `tests/` — scenarios run against the compiled library.
* `app/` — the runtime around it: async ports, use cases on tokio, room actors and the room
  service, the axum HTTP entry with TLS, redirect and HSTS, the long connection's request
  handlers and frame admission (without the wire format), and the TCP gateway's settings,
  token bucket and shared gate.
