# minstrel

A Discord music bot whose core is verified with Verus.

- `src/` is the verified library: the music state machine (queue, history,
  what plays next), fair autoplay between listeners (the user with the least
  accumulated play time goes next), account registration and linking with
  PBKDF2 password hashes and one-time link codes, the voice-channel
  decisions, and every text the bot shows. Steps that need the player, the
  clock, the database or the network are handed back to the caller.
- `tests/` exercises the library on concrete values.
- `app/` is the program around it: the Discord client, the SQLite store,
  youtube-dl, the voice player and the web server. It carries out the steps
  the library asks for.

## Outside crates

- `serde_json` is used by `app/` only: it reads `config.json` and serialises
  the state and the broadcasts sent to the web front end.
- `songbird`, `warp` and `futures-util` (voice playback and the web server)
  and `rust-embed`, `mime_guess` and `chrono` are not dependencies: with
  them the set of crates was too large to fetch. `app/` still
  calls `songbird`, `warp` and `futures-util`, so it does not compile here. It
  has no route serving the embedded dashboard files. The song log records
  the time as Unix seconds, since `chrono` is missing.
