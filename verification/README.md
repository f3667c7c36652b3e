# Steam Current Game Overlay for OBS

Shows the name of the Steam game that is running, for use as a browser source in OBS.

The library under `src/` holds the rules and is verified with Verus. The programs under `app/` do
the rest: they read the clock, the Windows registry and files, and they talk over the network.

| Module | What it holds |
| --- | --- |
| `text`, `template` | decimal numbers, replacement of placeholders |
| `playtime`, `card` | how a play time is written, how a card is filled in |
| `protocol` | what clients send and what the server answers |
| `session`, `registry`, `upload` | what reports say, what the server keeps, what becomes of a report |
| `names`, `store`, `lookup` | the names that the operator sets, those of the store, and which one counts |
| `monitor`, `client` | what the monitor shows, what the client reports |
| `svg`, `pages`, `config` | the monitor's card, headers and bodies that are served, settings |

## Programs

`steam-current-game monitor` shows the game of this machine. `LISTEN_ADDRESS` sets where it listens
(`localhost:3000` if left out), `STEAM_API_URL` sets where it asks for names (the Steam store if
left out).

`steam-current-game server` collects reports. `ADDRESS` sets where it listens (`0.0.0.0:3000` if
left out), `--names` a JSON file with names by application id, `--templates` the directory of
`modern.card.html` and `interval-display.main.html`.

`steam-current-game client` reports the game of this machine, for the user that `API_TOKEN` names.

## What is taken on trust

The functions marked `external_body` and the `assume_specification` items in `playtime`, `store`,
`names` and `monitor` state what `std`, `reqwest`, `serde_json` and `dashmap` do. Nothing proves
those statements; the tests run them.
