# creditbar

The logic of a macOS menu-bar app that shows YourGPT credit and quota usage,
written in Verus with its behaviour stated in contracts and proved.

`src/` is the verified library:

- `api.rs` — request bodies (`app_id` injection), the response envelope, and
  reading organizations, plan details and notification feeds out of whatever
  shape the server answers with; plan keys to display names.
- `json.rs` — the JSON model, field lookups, integer and timestamp coercion.
- `alerts.rs` — threshold (80/95/100%) and past-due banners with per
  organization dedup, and the laws that govern them.
- `notifications.rs` — which server notifications become banners, each once.
- `models.rs`, `poller.rs`, `state.rs`, `tray.rs` — severities, poll-cycle
  decisions, settings, and the tinted tray icon.
- `keychain.rs` — token and settings in the platform credential store.
- `text.rs` — substring search, trimming, decimal formatting and parsing.

`app/` is the Tauri program around it: HTTP, the tray, windows, native
notifications, SVG rendering and the float arithmetic of bucket percentages.
