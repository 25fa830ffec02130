# TeleMesh (verified core)

TeleMesh is a Telegram MTProto gateway: a server that keeps the Telegram session and offers
a token-protected REST API and a realtime WebSocket event stream, plus a small CLI client.

`src/` is the library, verified with Verus. It holds every decision of the gateway:

- `tickets` — one-time WebSocket tickets, valid for 60 s, each accepted at most once;
- `login` — the phone → code → 2FA password login flow as a state machine;
- `auth` — the gateway-token check;
- `peer` — how a request names a chat (`@name`, `name`, numeric id);
- `convert` — Telegram messages, media and dialogs turned into the API's values;
- `paging` — page sizes, oldest-first history pages, bounded result gathering;
- `updates`, `retry` — the update feed, its reconnect back-off, media-transfer retries;
- `upload`, `download` — size limits, safe temporary names, form fields, download headers;
- `socket` — what the event socket does for each thing that happens;
- `client` — the URLs the CLI client talks to;
- `text`, `numbers` — trimming, decimal parsing and formatting used by the above;
- `protocol` — the values exchanged with clients.

`app/` is the program around it: the axum server, the grammers Telegram session, the
JSON forms (serde) of the protocol values, and the CLI client (`<binary> client ...`).
