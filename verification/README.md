# tempest

The decision logic of Tempest, a weather applet for the COSMIC desktop,
written in Verus and proved against its contracts.

## Layout

- `src/` — the verified library.
  - `state.rs` — the applet state (`Tempest`), the messages it handles
    (`Message`), the work it asks for (`Effect`), and, as spec functions, what
    each message does.
  - `applet.rs` and `applet/` — `Tempest::init` and `Tempest::update` with one
    handler per message: request generations and stale-result dropping, the
    retry backoff, alert de-duplication, location choice and bookmarks, the
    buffered settings edits, tabs and unit selectors.
  - `laws.rs` — properties that span several messages (every update keeps the
    state well-formed, a refresh supersedes earlier results, the backoff
    schedule, alerts notified once, toggles that undo themselves, the bookmark
    cap, …).
  - `config.rs`, `units.rs` — settings, their defaults, units by country.
  - `pollen.rs`, `float_bits.rs` — EAN pollen levels computed exactly on the
    bit patterns of the provider's `f32` readings.
  - `notification.rs` — markup stripping and truncation of alert text.
  - `dates.rs`, `descriptions.rs`, `text.rs`, `pride.rs` — date labels, message
    ids of descriptions, string helpers, the June accent.
- `tests/` — scenario tests on concrete values.
- `app/` — the desktop host (not verified): the COSMIC applet, the view,
  fetches, notifications and persistence. It hands every message to the
  library and performs the effects it returns.

