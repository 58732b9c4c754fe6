# drogue_cloud_testing

Helpers for system tests of a Drogue Cloud installation: the `drg` commands a
test runs, the endpoints it talks to, the requests it sends over HTTP, CoAP
and MQTT, the conversion of received events into cloud messages, and the
waits and warm-ups around receivers.

- `src/` is the library, verified with Verus. Every public function states in
  its contract what it returns; the calls into `url`, `serde_json`, `base64`,
  `regex` and `coap-lite` go through small trusted wrappers whose contracts
  name what those crates compute.
- `app/` holds the input and output around it: running `drg`, the browser,
  the network clients (`reqwest`, `paho-mqtt`, `rumqttc`,
  `tokio-tungstenite`, DTLS) and the loops that wait on them. It hands the
  library plain values and acts on what comes back.
- `tests/` exercises the library on concrete values.
