# chatter

`chatter` is the logic of a chat daemon, `chatterd`, and of its command-line client,
`chatterctl`. The daemon keeps Matrix accounts, logs them in, and serves them to user
interfaces as newline-delimited JSON-RPC 2.0 over TCP. The library is written in Verus: what
each function does is stated in its contract and proved.

## How it works

The daemon's state is one value, `daemon::Daemon`. A request starts with
`requests::handle_request`, which answers at once or names an action to be performed outside
(look up a homeserver, get a page, log in, write the accounts to disk, ...) together with the
way it goes on. `requests::resume` goes on with what came of the action. Subscriptions are
opened by `subscriptions::handle_events_subscribe`, which gives the lines to send in order and
may ask for the client's rooms on the way. The command-line client is built the same way:
`ctl::start`, `ctl::answered` and `ctl::replied`.

- `rpc`: requests, errors, responses and lines; `requests`: the methods
- `account_calls`, `page_calls`, `room_calls`, `verification_calls`: the methods' steps
- `subscriptions`, `events`: cursors, histories, replay, snapshots and what is pushed
- `matrix`, `verification`: what comes in from a homeserver, and verifications under way
- `account_rpc`: the plain account server, `chatter-accounts`, which keeps accounts without
  logging them in at their homeservers
- `state`, `config`, `login`, `fetch`: accounts, settings, login methods, homeservers' pages
- `args`, `ctl`, `ctl_text`: the command-line client
- `invariants`: what every step keeps
- `json`, `text`, `strmap`: values, texts and maps

`app/` holds the programs around the library: sockets, files, the terminal and the Matrix
client.
