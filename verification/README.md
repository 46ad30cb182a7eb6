# z13helper

The verified core of a control platform for the ASUS ROG Flow Z13 (2025,
GZ302EA): profiles, fan curves, power limits, the daemon protocol, the fan
service and what the desktop application decides.

The library does no I/O. It decides from plain values and hands back plain
values; the programs around it open sockets, read files and draw widgets.

| Directory | Content |
|---|---|
| `src/` | The library, verified with Verus but for the believed functions named below |
| `tests/` | Its tests |
| `app/` | The programs: the control panel, `z13helperctl`, the fan service |

| Module | Subject |
|---|---|
| `curve`, `profile`, `config`, `config_store` | Fan curves, profiles, the configuration and how it is saved |
| `protocol`, `envelope`, `json`, `client`, `error` | The wire protocol and its client |
| `apply` | The fail-closed order in which a request reaches the hardware |
| `debounce`, `power`, `subscribe`, `hud`, `controller`, `sync`, `profile_coordinator` | What the desktop application decides |
| `ui`, `label` | What its windows show and change |
| `gamescope` | The overlay: displays, windows and their input |
| `ctl` | The command line |
| `fan_service` | Sensors, curve, control loop and protocol of the fan service |
| `z13ctl` | The client of the z13ctl daemon |
| `text`, `text_map`, `number` | Texts and numbers |

Calls into other crates and into parts of the standard library that Verus does
not know stand behind small functions whose contracts are believed, not proved.
Each says in its comment what it claims: `text::quoted`, `String::push`,
`client::utf8_text` and the functions of `json`.
