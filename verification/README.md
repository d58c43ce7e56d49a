# rs_pool

A pool controller: it drives a variable-speed pump and an eight-channel relay board over RS485,
reads the water temperature, and is commanded and watched over MQTT and a read-only HTTPS
dashboard.

`src/` is the library: the decisions of the controller, with contracts that Verus proves. Two
computations in floating point are outside it, in `app/`: the thermistor curve, and whether a
temperature has moved far enough to publish.

| Module | What it decides |
|--------|-----------------|
| `state` | commanded and measured state, speed words, relay bytes, the published status |
| `command` | what a partial JSON command asks for |
| `modbus` | frames and checksums, the reception of a reply, relay and pump cycles, who is serviced when |
| `mqtt` | command payloads, the session with the broker, reconnect delays |
| `temp` | sampling, averaging, and to which loop a reading belongs |
| `http` | the password file, who may see the dashboard, what it shows |
| `persist` | the settings that survive a restart |
| `log_buffer`, `health`, `warn` | recent log lines, health flags, rate-limited warnings |
| `config`, `supervisor` | settings and their defaults, which tasks run, what ends the controller |
| `json`, `text`, `double` | JSON values through `serde_json`, text, the whole part of a double |

Work that blocks or waits is no part of the library. A cycle on the bus, a session with the broker
or a poll of the sensor is a value that says what to do next and takes in what came of it.

`app/` is the program around the library: serial port, I2C, sockets, files, and the tasks that ask
the library what to do. `tests/` runs the library on concrete values.
