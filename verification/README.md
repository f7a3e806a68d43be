# tls_echo

The decision logic of a family of small TCP and TLS echo tools, verified
with Verus, and a command-line front end that runs them.

- `src/` is the verified library.
  - `text`: Unicode whitespace, trimming (as `str::trim` does it), exact
    string comparison.
  - `event`: what a socket read reports.
  - `server`: the one-shot plain echo server and the TLS echo session.
  - `client`: the interactive client session (quit command, message
    format, peer check) and the `--skip-verify` / `-s` flag.
  - `relay`: the forwarding session of the two proxies and the errors of a
    failed upstream TLS handshake.
  - `tls`: acceptor and connector settings of each program, with OpenSSL's
    verification flags.
  - `web`: CORS policy and default log filter of the web server.
- `app/` holds `main` and everything that touches sockets, files, threads,
  the terminal and the environment. `tls_echo <command>` runs one tool; run
  it without arguments for the list.
- `tests/` runs the library on concrete inputs.
