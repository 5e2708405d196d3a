# ytcast

A lightweight YouTube Music cast receiver. The phone finds the device, sends a track, and the music
daemon (MPD) plays it; position and state go back to the phone.

## Layout

- `src/` is the library. All that the receiver decides or computes is here, with contracts that
  Verus proves: the reaction to the phone's commands (`player`, `playlist`, `messages`), the lookup
  of titles and lengths (`innertube`), and the streaming of audio (`sabr`). It performs no input or
  output: functions take what has come in and return what is to be done.
- `src/player_laws.rs` and `src/sabr/laws.rs` state what holds across commands, requests and parts,
  whatever the phone, the daemon and the server do.
- `tests/` runs the library on concrete values.
- `app/` is the program around it: the connections to MPD, to YouTube and to the phone, and the
  binary form of the protocol's messages.

## What is taken on trust

The library calls `serde_json` to read answers, `base64` to decode two fields, and `bytes` to hand
audio on. What it relies on there is written above each such call, in `src/json.rs`,
`src/sabr/encoding.rs` and `src/sabr/parts.rs`.

## Usage

```bash
export DEVICE_NAME="Living Room Pi"   # the default
export MPD_HOST=localhost             # the default
export MPD_PORT=6600                  # the default
```
