# ryushi

Shard management for a Discord gateway cluster, with its decisions proved in
Verus.

- `src/` is the verified library:
  - `info`: what a shard publishes about itself (`ShardInfo`, `Heartbeat`,
    `ShardState`) and its operations.
  - `command`: the commands an application sends to a shard, their JSON
    encoding and the close frames of each close style.
  - `event_loop`: the state of a shard's event loop and the step it takes on
    each message from the gateway (`apply_message`): the next state, whether
    the loop stops, the event handler's hook to call and what goes to the
    sidecar, stated against the spec function `message_step`; and the loop's
    sequencing through running, draining after a close request, and finishing
    (`loop_step`).
  - `sidecar`: what the actor beside the event loop receives, and what it does
    with a command.
  - `spawn`: how a shard is configured from what was stored about it.
  - `event_handler`: the hooks an application gives the event loop.
  - `laws`: properties of the event loop that hold for every message.
  - `trusted`: the outside types the library carries and the calls it makes
    into `twilight-model`, `twilight-gateway` and `serde_json`,
    each with the contract that is believed of it.
- `app/` is the asynchronous runtime around it: the websocket loop (which
  reads the clock and calls the event handler's hooks), the
  `kameo` sidecar actor, the storage trait, and the serde forms of the
  library's types.
- `tests/` runs the library against real gateway payloads.
