# Velmora desktop launcher

The launcher of [Velmora](https://velmora.cc), in two parts.

`src/` is the decision core, a Verus library. Its functions take and give plain values, and
their contracts say what they decide; the laws that hold of several of them together are
public proof functions at the end of each module.

| Module | Subject |
| --- | --- |
| `api` | requests to the server, and verdicts on its answers |
| `session` | the session token, in memory and on disk |
| `store` | the two persistent files and the edits made to them |
| `json` | JSON documents, read from and written to `serde_json` |
| `pulse` | one tick of the pulse: notifications, what is kept, the summary |
| `launch` | single sign-on, the game window and the view inside it |
| `setup` | the preparation of the first start, and the check at later ones |
| `assets` | the manifest, the download of an asset, the batch |
| `tray`, `window` | the tray icon and the two windows |
| `update` | updates and the start with the machine |
| `error`, `text` | error messages and text assembly |

The core calls three crates, each behind small items whose contracts are believed without
proof: `serde_json` (in `json`), `reqwest`'s status codes (in `api`) and `url` (in `launch`).

`app/` is the application around it: Tauri windows and tray, network, disk.
