# Rust Remote Shell

A library that connects an Astarte device with a host over a WebSocket. The host sends shell
commands; the device executes them and sends their output back.

* **Device**: it waits for Astarte to tell it a host, connects with that host, executes the
  commands that arrive one after the other, and answers each of them.
* **Host**: it waits for a device, sends it the commands that are typed in, and shows what comes
  back. CTRL C interrupts the command that is executed.

`src/` holds what the two sides decide, written and proved with Verus. Everything that waits for
the outside is a state machine there: a method takes an event and returns the action to perform,
and its contract names the next state and the action for every state and event. `src/session.rs`
states what holds of a whole connection.

`app/` performs the actions: sockets, processes, files, the terminal, the encodings, and the
command line.

```sh
rust-remote-shell host <IP>:<PORT>
rust-remote-shell host --tls-enabled --host-cert-file <CERT> --privkey-file <KEY> <IP>:<PORT>
rust-remote-shell device <CONFIG.json>
rust-remote-shell device --tls-enabled --ca-cert-file <CERT> <CONFIG.json>
```

Astarte tells a device its host by an object that is sent to `/rshell`, for example
`{"scheme": "ws", "host": "127.0.0.1", "port": 8080}`.
