# telegram_drive

The request logic of a cloud drive kept in a Telegram account, verified with
Verus, and the HTTP server around it.

- `src/` — the verified library:
  - `text.rs`: character-level string operations (trim, search, replace,
    decimal printing and parsing) with exact specifications;
  - `utils.rs`: error-message normalisation (`FLOOD_WAIT`) and the peer cache;
  - `auth.rs`: sign-in checks, the login-code retry policy, and the state
    machines that check the connection and bring the client up;
  - `listing.rs`: cursor-based folder listing and its page specification;
  - `transfer.rs`: the retry policy of a transfer (exponential backoff) and
    the upload and download requests as state machines;
  - `fs.rs`: folder naming and recognition, channel answers, file records;
  - `preview.rs`: preview and thumbnail extensions, MIME types, data URLs;
  - `viewer.rs`: the preview and thumbnail requests as state machines, and
    the thumbnail cache;
  - `models.rs`: the records sent to the frontend and refused requests.
- `tests/`: tests of the library on concrete values.
- `app/`: the Axum server, the Telegram calls (grammers) and the JSON forms
  of the library's types.
