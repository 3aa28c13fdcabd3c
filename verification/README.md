# lg-hue-sync

Ambient-light synchronization for LG webOS televisions. A daemon captures the
displayed picture, derives its colours, and streams them to Philips Hue
Entertainment areas, Nanoleaf strips and WLED controllers. A dashboard on the
local network pairs devices, changes settings and shows the status.

The library in `src/` holds the daemon's decisions, written in Verus: every
function states what it returns or changes, and the proofs are checked with it.
The program in `app/` does the input and output around it.

## Layout

| Module | What it decides |
| --- | --- |
| `sync_loop` | the order of the loop's tasks, from collecting commands through a frame's way to each output to the rest after it |
| `daemon` | starting, following the TV, pausing, resuming, switching outputs |
| `runtime` | the commands that wait for the loop |
| `output` | which frames are worth sending, and what sending them changes |
| `web` | what the dashboard's requests store, ask for and are answered |
| `status` | every way in which the dashboard's status changes, none of which shows a secret |
| `settings`, `config` | live settings, the saved configuration, and how one becomes the other |
| `ddp`, `sampler` | WLED packets, and the order of a strip's LEDs |
| `capture`, `dile` | pictures out of video planes, and setting up the display driver |
| `frame`, `calibration`, `color` | averages, changes, test patterns |
| `video_info` | the frame rate that the TV reports |
| `cli`, `text` | diagnostic commands, text |

Settings that are single-precision numbers are carried as their bit patterns.
Arithmetic with them happens in `app/`.

## What is taken on trust

`video_info` reads JSON with the `serde_json` crate. Which document some bytes
are is `serde_json`'s to say; the library names the result and proves the search
for a frame rate over it.

## Program

```text
lg-hue-sync run --config config.json
lg-hue-sync pair --bridge <bridge-ip> --output config.json
lg-hue-sync pair-nanoleaf --ip <controller-ip> --config config.json
lg-hue-sync sync-hue --config config.json
lg-hue-sync test-pattern --config config.json
lg-hue-sync test-nanoleaf --config config.json
lg-hue-sync test-wled --config config.json
lg-hue-sync test-capture --config config.json
```

`app/drivers.rs` declares what the program needs of the drivers for bridges,
Nanoleaf controllers, samplers and the television's power state. `app/main.rs`
registers none of them: it starts with `Drivers::default()`, and every command
that needs a driver ends with an error that says which one is missing. `run`,
`pair`, `pair-nanoleaf`, `sync-hue`, `test-pattern`, `test-nanoleaf` and
`test-capture` do; `test-wled` needs none.
