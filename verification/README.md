# decklink

SDI capture and playout for Blackmagic DeckLink cards, with the decisions
verified in [Verus](https://github.com/verus-lang/verus).

A small C shim over the DeckLink SDK delivers frames and takes them. `src/` is
the library between its calls and the caller: each function takes what the shim
returned, as plain values, and its contract says what follows. `app/` holds the
capture and playout handles, which make the shim's calls through one trait.

| module | what it decides |
| --- | --- |
| `device` | the connector index and the model in a device name |
| `ports` | the BNC that each sub-device of a complete 8-port Quad occupies |
| `enumeration` | the devices of a host, from the shim's name answers |
| `status` | a hardware status snapshot, field by field |
| `frame` | pixel formats, and frames converted from the shim's buffers |
| `opening` | opening a capture: waiting for video, settling on a format |
| `capture` | reading frames, timeouts and the end of the stream |
| `playout` | opening a playout, and what each write comes to |
| `shim` | the plain values that cross the boundary |
| `text` | searching, trimming and decimal numbers |
| `error` | errors and their messages |

Proof functions whose names begin with `law_` state what holds across calls.

What is taken on trust stands in `text`: appending a character to a `String`,
printing a string in quotes, and lossy UTF-8 decoding.
