# glide_kvm

A software KVM that replays keyboard and mouse input received over UDP.

- `src/` is the verified library: the wire types (`protocol`), the key codes
  and virtual device capabilities (`keycodes`), the table from `xdotool` key
  names to key codes (`keymap`), the planning of how a received event is
  replayed (`inject`), the clipboard bridge (`clipboard`), the dashboard's
  state (`dashboard`) and text helpers (`text`).
- `app/` is the program around it: the command line, the UDP sockets, the
  virtual devices, the `xdotool` processes and the window.
- `tests/` exercises the library on concrete values.
