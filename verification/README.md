# aoba_client

The logic of the Aoba media-hosting web client, verified with Verus.

- `src/` — the verified library: the toast display's state machine
  (`components::toasts`), drag-selection of media items (`views::home`),
  page navigation, the media grid's list updates, context-menu choices,
  share links, upload pairing, the replies of the sign-in and settings
  calls, the session token and its `authorization` header, and the
  protocol's enumeration codes and display names (`rpc::aoba`,
  `proto_exts`). Contracts are stated over `Seq`/`String` views; the
  laws (toast ids stay unique and increasing in every state reached
  from the empty display, push-then-remove restores the display,
  selections stay free of repeats, navigation stays in range, codes
  round-trip, the thumbnail found ignores other sizes and later
  additions) are public proof functions beside the code.
- `tests/` — runtime tests of the library on concrete values.
- `app/` — the Dioxus front end: components, pages, browser storage and
  clipboard, passkeys and the gRPC clients, calling the library for every
  decision.
