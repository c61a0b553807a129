# gnomeqs

The verified core of GnomeQS, a Quick Share client for the GNOME desktop.
The library holds the logic of the client; each public function carries a
`requires`/`ensures` contract that Verus proves.

## Layout

- `src/` — the library, written in Verus:
  - `settings.rs`: the application settings, their getters, setters and
    window-state rules;
  - `history.rs`: the transfer history — pruning by age and count,
    appending, removing and clearing entries;
  - `tray.rs`: the tray helper's paths, status file and IPC commands;
  - `ble.rs`, `ble_laws.rs`: Bluetooth LE discovery bookkeeping (which
    devices are announced, refreshed and withdrawn) and the nearby-sharing
    alert, with the laws that hold over whole runs of events;
  - `channel.rs`, `endpoint.rs`, `visibility.rs`: the messages and values
    exchanged with the Quick Share core;
  - `views.rs`, `window.rs`, `idlist.rs`: the decisions the user interface
    takes on incoming events (rows, tiles, pages, history controls, style
    sheet);
  - `text.rs`: verified string helpers (trimming, prefixes, path joining,
    replacing, integer formatting).
- `tests/` — tests of the library on concrete values.
- `app/` — the unverified parts: Bluetooth scanning, settings and history
  storage, the tray helper process and the bridge types.

Only `src/` is verified; `app/` hands the library plain values and acts on
what it returns.
