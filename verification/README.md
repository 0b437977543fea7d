# chat_lobby

A websocket chat server that pairs anonymous visitors, identified by a
browser fingerprint, into two-person conversations.

- `src/` is the verified core, written in Verus. Every decision the
  server's actors take is a function of their state and the event they
  receive, with a contract:
  - `lobby`: who is connected, who is looking for a partner, and how a
    "look" pairs two visitors once the database stored their conversation;
  - `chat`: relaying messages between the members of a conversation,
    counting them, and telling the others when a member exits, times out or
    drops;
  - `client`: what the actor serving one websocket answers, where it
    forwards what the client says, and when it gives up on a silent client;
  - `server`: the registry of lobbies and how a join request names one;
  - `message`, `json`: the JSON text clients receive;
  - `table`: a fingerprint-keyed table with distinct keys for sessions and members;
  - `models`, `database`: the rows and requests of the database.
- `app/` runs the core: actix actors, the HTTP routes, and the diesel
  queries against PostgreSQL.
- `tests/` exercises the core on concrete values.
