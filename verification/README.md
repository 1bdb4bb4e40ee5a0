# fortochka

Verified core of the Fortochka service: a phone acting as a camera uploads
JPEG frames to a server, and viewers fetch the latest frame, centre-cropped
and resized to their screen, as their wallpaper.

`src/` is the verified library:

- `routes`, `proto` — paths and messages of the HTTP API;
- `retry` — the client's retry policy with exponential backoff, and the laws
  of a run under it;
- `error`, `client` — client errors, the server's URLs, and how an answer
  outside 2xx becomes an error;
- `config`, `mobile` — device configuration and its mirror for the mobile
  platforms;
- `api_error`, `handlers`, `images`, `storage`, `state` — the server's error
  answers, request rules, credential generation, frame cropping and file
  naming.

`app/` is ordinary Rust around it: the axum/SQLite server, the blocking
reqwest client with its retry loop, configuration files, and the functions
that the mobile platforms call.
