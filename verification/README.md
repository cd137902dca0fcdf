# mesh_signal

A WebRTC benchmark in which every peer streams a video to every other one. The peers find each
other through a signaling server, and each measures the round trip time to the others.

- `src/` is the verified library: every decision of the server and of the peers, on plain values.
  - `registry`, `session`: the server's record of who is connected, and what it does about each
    event of a connection.
  - `peer`, `handler`, `media`, `forward`: a peer's negotiation, the events of its connections, its
    video track and statistics, and the queue of RTCP packets.
  - `message`, `frame`, `ids`, `text`: messages, the text of WebSocket frames, identifiers and the
    names made of them.
  - `mesh`: what holds of the server and the peers together.
  - `tables`: the concurrent maps, behind trusted contracts.
- `app/` is the two programs, `signal` (the server) and `peer`: sockets, the media stack, files and
  clocks around the library. They are one executable, which goes by the name that it is called by;
  under any other name, its first argument is `signal` or `peer`.
- `tests/` runs the library.

Each peer writes its statistics to `stats-[UUID].csv`, a row `PeerID,DelayMs` for each receiver
report: the peer that sent the report, and the delay in milliseconds.
