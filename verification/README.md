# rexy

`rexy` launches a browser through a local man-in-the-middle proxy that serves a
production path prefix from a local development server, and routes only the
intercepted hosts through that proxy with a PAC script.

## Layout

- `src/` — the library, verified with Verus:
  - `proxy_handler.rs` — redirect rules, the request rewriting, the
    `Content-Security-Policy` override, and the laws that relate them;
  - `config.rs`, `cli.rs` — checking rules from a configuration file or from
    the command line;
  - `pac.rs` — the PAC script and the one-shot HTTP exchange that serves it;
  - `trust.rs` — the commands that install, remove and detect the local CA in
    each platform's trust store;
  - `browser.rs` — where to look for the browser and how to launch it;
  - `ca.rs` — the CA files and the certificate authority built from them;
  - `http.rs` — the header and URI types of `hudsucker`, with the contracts of
    the calls made into them;
  - `text.rs` — character-sequence operations with their definitions;
  - `error.rs` — the library's errors and their messages.
- `app/` — the program: command line, files, processes, sockets and the
  proxy's event loop, which perform what the library decides.
- `tests/` — tests of the library.
