# spironmc

A small Minecraft Java edition server. The library under `src/` holds the
server's logic with Verus contracts and proofs; `app/` is the program around
it: sockets, files, threads, logging, and the floating-point work of player
movement and physics.

## src/

- `java/proto.rs`: VarInts, VarLongs, fixed-width integers, strings and
  positions on the wire (`Reader`, `Writer`), with round-trip laws.
- `java/packets.rs`, `java/entities.rs`, `java/chunks.rs`,
  `java/metadata.rs`: every packet the server sends, each stated as the exact
  bytes it produces; handshake and login decoding.
- `java/session.rs`: the per-connection protocol state machine
  (`handle_packet`), packet framing (`take_frame`), parsing of play packets,
  inventory clicks, block edits.
- `java/view.rs`: which chunks a player holds, what to load and unload
  when it moves, and which other players drop out of sight.
- `java/nbt.rs`: NBT tags, their writer and reader (floats carried as their
  IEEE-754 bits), with the round-trip law.
- `java/registries.rs`: the registry table sent during configuration and
  its Registry Data packets.
- `inventory.rs`, `world.rs`: items, stacks, the player inventory, blocks,
  chunk sections, chunks and the chunk map.
- `persist.rs`: the chunk file format (run-length encoded sections), file
  names, and restoring a saved inventory.
- `network/`: byte buffers, length-prefixed frames and the state of one
  connection (`ConnectionCore`).
- `config.rs`, `console.rs`, `clock.rs`, `scheduler.rs`, `state.rs`,
  `text.rs`, `version.rs`: configuration rules, console commands, ticks,
  scheduled tasks, the lifecycle state and string helpers.

Laws are public proof functions named `law_*`.

## app/

`main.rs` loads the configuration and runs `server.rs`, the tick loop.
`handler.rs` drives the sessions; `net.rs` owns the sockets; `world.rs` and
`storage.rs` keep worlds and player data on disk.
