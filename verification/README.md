# genius_clan

The rules of the Genius Clan chess platform, written in Verus and proved
against their contracts, with the HTTP server around them.

- `src/` is the verified library:
  - `auth`: registration checks, password hashing, login (lockout, CAPTCHA
    gate, credential checks), 2FA and old-device approval, refresh-token
    rotation with reuse detection, password reset, signup links, and the
    documents of the durable store (users, sessions, daily claims).
  - `game`: the chess engine state (FEN, move history, repetition), turns,
    clocks, disconnect grace timers, matchmaking queues, custom invites,
    paid hints and rating changes.
  - `anticheat`: event severities, risk scores and tiers, the three-cycle
    ban escalation, CAPTCHA challenges, ad-reward limits, device and IP
    signals, mid-match signals, and the ledger hash-chain walk.
  - `admin`: role-based access per panel section, re-authentication and the
    panel's input checks.
  - `middleware`: bearer tokens, the IP allowlist (with CIDR ranges) and the
    probe filter.
  - `db`: a keyed list with a map view, and the paths, encoding and status
    meanings of the durable JSON store.
  - `email`, `config`, `reply`, `text`: mail templates and SMTP mode,
    configuration from environment values, error bodies, and text helpers.
- `tests/` runs the library on concrete values.
- `app/` is the server: configuration from the environment, SQLite and the
  durable store, HTTP and WebSocket handlers, SMTP, JWT signing, background
  jobs, and the Elo formula (floating point).
