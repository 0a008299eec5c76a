# nanokvm

The logic of an IP-KVM web server, verified with Verus: keyboard and mouse
input decoding, paste key codes and report routing for the USB HID gadget,
login lockout, passkey challenges and recovery codes, WebRTC signaling and
H.264 packetizing, stream quality control, EDID handling, storage health
scoring, network and Wake-on-LAN settings, and the parsers behind them.

- `src/` is the verified library. Each public function states what it
  returns in its `ensures`; properties that span several calls are public
  proof functions named `lemma_*`. Calls into outside crates (hashing,
  base64, bcrypt, AES, URL parsing, QR codes, randomness) go through small
  trusted wrappers whose contracts say what the crates document.
- `tests/` runs the library on concrete values.
- `app/` is the server around it: configuration file, HID device files,
  HTTP and WebSocket handlers.
