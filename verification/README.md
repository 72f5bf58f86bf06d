# magnet

The verified core of the Magnet Spotify desktop client, written in Verus.

- `src/` is the library. Every executable function in it carries a
  `requires`/`ensures` contract that Verus proves:
  - the player reducer, native player commands and events (`player`);
  - the snapshot lifecycle (`lifecycle`);
  - Spotify URL checks and catalog pagination (`spotify_url`, `catalog`);
  - the OAuth sign-in, token and credential-store decisions (`session`);
  - the demo library (`library`);
  - the integer side of PCM analysis (`audio`).

  Calls into `url`, `sha2`, `base64`, `getrandom` and `keyring` sit behind
  small trusted wrappers whose doc comments say what they claim.
- `tests/` runs the library on concrete values.
- `app/` is the desktop shell around it: Tauri commands, HTTP, the OAuth
  callback socket, the file cache, the native player and the
  floating-point audio analysis. It makes no decision the library could
  make.
