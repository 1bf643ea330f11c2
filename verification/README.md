# cgw_proxy

The decisions of a proxy that devices connect to over TLS and WebSocket, written in Verus.

* `src/` is the verified library: the registry of connections (`proxy_conn_map`), the mailbox
  that feeds it in batches (`internal_mbox`), the making of a server (`proxy_connection_server`,
  `proxy_runtime`) and the way of a connection from its handshake to its registration
  (`proxy_connection_processor`).
* `app/` holds the tasks, sockets and timers. It hands the library what happened and carries out
  what the library hands back.
* `tests/` runs the library with the crates that it calls.
