# ability

Menu model, menu event dispatch and native-window bookkeeping for an
OpenHarmony ability, verified with Verus.

- `src/menu/types.rs` — `MenuItemData` (the description handed to the UI
  layer), `Menu`, `MenuItem`, `Submenu`, their models and the laws that tie
  appending, setting and `to_data` together.
- `src/menu/ids.rs` — generated ids: a prefix and a random UUID (uuid crate).
- `src/menu/event.rs` — `MenuEvent` and the `MenuEventDispatcher`.
- `src/window/mod.rs` — the window id counter (with its uniqueness law), the
  window configuration and the decision taken before ArkTS is called.
- `app/` — NAPI exports, process-wide channels and dispatcher, the popup
  forwarder thread and the ArkTS call that creates a window.
