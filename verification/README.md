# pocket_relay

The core of a server for the Mass Effect 3 multiplayer protocol (Blaze),
written in Verus. Every public function in `src/` carries a contract (a few
private helpers have none); Verus proves those of the library's own
functions, while the small wrappers that call outside crates (marked
`external_body`) have contracts that are trusted.

- `src/packet.rs`, `src/encode.rs`, `src/decode.rs`, `src/models/`: framing
  of Blaze packets, the messages the server writes and the request and
  response bodies it reads (through the `tdf` crate's writer and reader).
- `src/signing.rs`, `src/sessions.rs`, `src/tokens.rs`: HMAC-signed session
  and association tokens and one-time login codes.
- `src/game.rs`, `src/matchmaking.rs`, `src/rules.rs`, `src/routes.rs`: games,
  their players, matchmaking rules and queue, and the decisions of the game
  manager requests. Changes return the notifications they cause as effects.
- `src/session_data.rs`: the data of one client session and the
  notifications its changes cause to subscribed sessions.
- `src/tunnel.rs`, `src/udp_tunnel.rs`: tunnel framing, the routing tables
  between tunnels of one game, and the UDP tunnel protocol.
- `src/leaderboard.rs`, `src/report.rs`, `src/client_config.rs`, `src/text.rs`,
  `src/attrs.rs`: leaderboards, end-of-match reports, client configuration
  and text helpers.

`app/` is a small server process that uses the library: it loads the
server secret, sets up the token services (the JSON web token service
carries the library's claims through the `hs256-token` crate) and runs the
UDP tunnel (socket, keep-alive sweeps), making no decision of its own. It does not hold the Blaze socket server, its
request router, the HTTP API or the writing of match reports. `tests/`
exercises the library on concrete values.
