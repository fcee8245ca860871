# gssproxy

gssproxy lets programs use Kerberos credentials without holding their keys: a
mechanism interposer in the program hands GSSAPI operations to a daemon over a
Unix socket, and the daemon performs them.

`src/` is the logic of the three parts, written in Verus: each function states
what it returns, and Verus proves it.

- `xdr`, `frame`, `rpc`, `gssx`, `proc`, `codec`: the wire protocol. A value is
  modelled by a tree, a type by a shape; encoding writes the bytes of the tree, and
  decoding is the parse of the bytes by the shape. `xdr_laws` holds what follows:
  what is written is read back, no truncation is accepted, bytes after a value do
  not matter.
- `client`, `gpm`: the transaction with the daemon and its retries, and the
  requests and replies of each operation.
- `interposer`: for each entry point, which side is tried when, what it is asked,
  and which status is reported. An operation that has to leave the library is a
  step: the caller performs it and hands the answer back.
- `server`: command line, configuration, the service a peer belongs to, dispatch,
  and the credential rules.
- `gssapi`: statuses, sealing of credentials, and the steps of storing one in a
  credential cache.

`app/` is ordinary Rust around it: sockets, files, signals, and the calls into the
GSSAPI and krb5 libraries.

Two things are taken on trust and not proved: that `rust-ini` reads a text the same
way each time (`server::config`), and that `String::push` and `String::push_str`
append (`text`).
