# chat

The logic of a Matrix chat client, written in Verus and proved against its
specifications.

- `src/` is the verified library:
  - `timeline` turns room events into timeline entries (messages, replies
    with their quotes removed, thread messages) and merges them into the
    list a room shows, folding threads together;
  - `rooms` builds the room list and groups rooms under the spaces of their
    homeserver; `members` handles profiles, room members and the account;
  - `messaging` plans messages, attachments and new rooms;
  - `auth` holds the login data, the user-name and homeserver rules and the
    shared authentication state; `state` the other shared page state;
  - `views` and `pages` hold what the components and pages decide;
  - `text` is the string toolkit the rest is proved with;
  - `boundary` holds the calls into std and outside crates (chrono, url,
    mime, ruma, serde_json), each with the contract it is trusted to meet.
- `app/` talks to the homeserver through matrix-sdk, keeps the session in
  the browser's storage, and hands plain values to the library.
- `tests/` runs the library on concrete values.
