# flowtype

FlowType streams what is typed or dictated on an Android phone to the
cursor of a Windows computer. The phone sends the full text of the input
with a sequence number; the computer turns each accepted snapshot into an
edit of the focused application's text.

This crate is the computer's logic, verified with Verus:

- `protocol`, `session`, `server`: the phone protocol, the per-session
  sequence rules and the plan for every message of a connection;
- `auth`, `pairing`, `crypto`: pairing and signed reconnection, the table of
  paired phones, and the outside cryptography it rests on;
- `diff`, `injector`, `keys`, `tip`, `composition`, `broker`, `recovery`,
  `ipc`: the grapheme diff of two snapshots, the injector's decisions, the
  text service's composition model and the framed pipe between them;
- `limiter`, `presence`, `status`, `shell`, `i18n`, `settings`, `network`,
  `media`, `log`, `update`, `update_panel`, `spike`: admission of
  connections, online phones and switch requests, the status line and the
  window's texts, settings files, addresses, images, the bounded log and
  the signed update manifest.

`app/` is the program around it: the TLS WebSocket server, mDNS, the files
in the data directory and the pipe to the injector. `tests/` runs the
library on concrete values.

`Cargo.toml` names `ecdsa`, the crate behind `p256::ecdsa`, only to turn on
its `der` and `verifying` features, which the signature checks use.
