# tube_lamp

The logic of a tube of 86 LEDs that is steered by MQTT messages and by two touch pads,
written and proved in Verus.

- `src/` is the library. `message` turns messages into commands, `touch` adds what the touch
  pads ask for, `lamp` carries commands out and says what every LED shows, `session` keeps the
  order of subscriptions and rounds. `text` reads numbers and fields, `color` and `mode` hold
  what the lamp can show. `laws` and `text_laws` prove what holds of them together.
- `app/` runs the library on an ESP32. It needs the ESP-IDF toolchain, and a `.env` file with
  `WLAN_SSID`, `WLAN_PASSWORD`, `MQTT_URL`, `MQTT_USERNAME`, `MQTT_PASSWORD` and
  `MQTT_CLIENT_ID`.
- `tests/` runs the library on given values.

Three calls are trusted: `smart_leds::hsv::hsv2rgb`, `str::to_lowercase` and
`std::str::from_utf8`. What is taken for granted of each stands above its wrapper.
