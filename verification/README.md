# Swaddle

An inhibitor for swayidle that detects audio and video, and keeps the system
from idling while they play.

`src/` is the verified library. It makes every decision:

| module | what it decides |
| ------ | --------------- |
| `settings` | which settings hold, and where they are read from |
| `bus`, `players`, `scan` | which media players there are, and whether one plays |
| `flows` | which PipeWire nodes play sound |
| `swayidle`, `command` | when swayidle is started and stopped, and by which command |
| `speaker`, `json` | when the speaker is switched on and off, and by which request |
| `idle` | all of it together, cycle by cycle |
| `text` | operations on text that the others share |

Its contracts say what each function returns; the proof functions named `law_..`
state what holds of several calls or of a whole run.

`app/` is the program around it: the connection to the session bus, the watch
over PipeWire, the processes and the HTTP requests.

## Configuration

Swaddle reads `$HOME/.config/swaddle/config.toml`, or the file given by
`--config <path>`. The file is required, and is never created:

```toml
debug = false

[server]
inhibit_duration = 25
sleep_duration = 5

[ha]
host = "http://192.168.1.1:8123"
token = "your-long-lived-access-token"
entity = "switch.my_speaker"
enabled = true

[swayidle]
config_path = "/home/you/.config/sway/swayidle.conf"
enabled = true
```

The `ha` section is optional; without it the speaker is not controlled.
