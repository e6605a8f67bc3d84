# mountain_mqtt

An MQTT v5 client library for small devices, written in Verus: the encoding and decoding of
every MQTT v5 packet, and the state machines of a client, carry contracts that Verus proves.

## Layout

- `src/codec`: reading and writing the primitive values of MQTT (integers, variable byte
  integers, strings, binary data), a model of encoding as a sequence of write steps, and the
  decisions that frame a packet received from a stream.
- `src/data`: packet types, reason codes, properties, quality of service, subscription
  options and packet identifiers, each with the byte values that encode it. All packets
  share one `Property` type (the per-packet names such as `ConnectProperty` are aliases of
  it); which properties a packet accepts is the predicate `properties_accepted` over a
  `PropertyContext`, which reading enforces.
- `src/packets`: the fifteen packet types, each written and read against a mathematical view;
  `laws.rs` and the `lemma_*_roundtrip` proofs state that reading a written packet gives
  back the same view, for packets whose properties are accepted in their context and no
  more than reading them allows (a packet holding other properties is written, but reading
  refuses it).
- `src/client_state.rs`, `src/client_state_queue.rs`: the client without a queue (at most one
  response awaited) and the client with a queue of awaited responses, as state machines over
  received packets.
- `src/client.rs`, `src/poll_client.rs`, `src/poll_timing.rs`, `src/packet_client.rs`,
  `src/message_io.rs`: what a client does with what it receives, the timers of a polled
  client, and packet buffers.
- `src/messages.rs`: the messages of an example device (a button and an LED).
- `src/delay.rs`: the adapter around an embedded HAL delay.
- `app/`: the asynchronous clients over tokio and embedded-io-async connections, which move
  bytes and call the library for every decision.
- `tests/`: tests of the library on concrete packets and states.
