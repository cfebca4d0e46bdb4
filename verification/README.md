# iot_edge

Verified core of an IoT edge gateway that sits between battery-powered hubs
(over a local MQTT broker secured with mTLS) and a central server.

The library under `src/` holds the gateway's decisions, each with a contract
proved by Verus:

- `fsm`: the hierarchical balancing state machine (`domain`), the quorum rules
  and what each of its actions sends (`logic`), the watchdog timers, the
  heartbeat generator and the service lifecycle (`runtime`), and the laws that
  hold across states (`laws`, `runtime_laws`).
- `network`: the in-memory registry of networks, hubs and topics, and how
  server and hub messages change it.
- `message`, `routing`, `mqtt`: message records, where each message goes,
  the records exchanged with the server and the uplink and downlink rules
  (`message::upload`), and the small state machines of the links.
- `database`: how storage hands out its commands, when it sends stored data,
  and how telemetry writes are batched (`batch`).
- `firmware`: the roll-out of an update, canary first and then the whole
  network (`rollout`).
- `system`: the start-up checks of the broker set-up (including the scan of
  the broker's configuration files and their includes), the repair plans, the
  start-up sequence and the network records.
- `metrics`, `text`, `keyed`: the wireless signal table, character-level
  parsing, and a string-keyed map.

`app/main.rs` runs the start-up sequence on a machine: it reads the files and
runs the commands that the library decides on. `app/switchboard.rs` then runs
the core's switchboard, the balancing service, the message service's server
links and the storage writer as threads joined by channels.
