# esp-wiffy

An esp32c3 sensor node: it joins a Wi-Fi network, reads a DHT11
temperature/humidity sensor and a flame sensor, and publishes the readings and
fire warnings to an MQTT broker.

The decisions of the firmware are a verified library (Verus) under `src/`:

- `text`: the message text, decimal numbers written through `heapless` strings;
- `packet`: the packets queued by the sensor tasks and the MQTT messages
  published for each;
- `sensor`, `flame`, `wifi`, `uplink`: the four tasks as state machines, from
  state and event to next state and action;
- `laws`: properties that span the tasks and the message format.

`app/main.rs` is the firmware around it: board set-up, the async tasks, and the
I/O that each state machine asks for.

`embedded-hal` 0.2 is named in `Cargo.toml` only to switch on its `unproven`
feature: `dht-sensor` 0.2 reads its pin through the `digital::v2` traits that
this feature enables, and does not build without it.
